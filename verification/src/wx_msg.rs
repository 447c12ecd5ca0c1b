//! WeChat message frames: the fields of an incoming XML message, and the XML
//! text of a reply.

use vstd::prelude::*;
use vstd::hash_map::StringHashMap;
use crate::clock::{millis, millis_of, unix_time_now};
use crate::text::{decimal, decimal_text};
use crate::commands::{dispatch_command, Action, ActionView, Dialog, DialogView, StageView};

verus! {

/// One event of an XML event stream, as far as message parsing reads it.
pub enum XmlToken {
    /// An opening tag, by its local name.
    Start(String),
    /// Character data or a CDATA section.
    Text(String),
    /// The stream stopped on malformed XML.
    Failure,
    /// Any other event (closing tags, whitespace, document start and end, ...).
    Other,
}

/// The mathematical value of an [`XmlToken`].
pub enum XmlTokenView {
    Start(Seq<char>),
    Text(Seq<char>),
    Failure,
    Other,
}

impl View for XmlToken {
    type V = XmlTokenView;

    open spec fn view(&self) -> XmlTokenView {
        match self {
            XmlToken::Start(name) => XmlTokenView::Start(name@),
            XmlToken::Text(data) => XmlTokenView::Text(data@),
            XmlToken::Failure => XmlTokenView::Failure,
            XmlToken::Other => XmlTokenView::Other,
        }
    }
}

/// The views of a sequence of tokens.
pub open spec fn token_views(tokens: Seq<XmlToken>) -> Seq<XmlTokenView> {
    tokens.map_values(|t: XmlToken| t@)
}

/// The event stream that the `xml` crate's pull parser produces for a document.
pub uninterp spec fn xml_token_stream(msg: Seq<char>) -> Seq<XmlTokenView>;

/// Runs `xml::reader::EventReader::from_str(msg)` as an iterator to its end and
/// converts each event into an [`XmlToken`]: `StartElement` gives its local name,
/// `CData` and `Characters` give their text, an error gives `Failure`, every
/// other event `Other`. The iterator stops after the first error or after
/// `EndDocument`. The contract claims only that the result is a function of
/// `msg` (named [`xml_token_stream`]); what the parser reports is not restated.
#[verifier::external_body]
fn xml_tokens(msg: &str) -> (tokens: Vec<XmlToken>)
    ensures
        token_views(tokens@) == xml_token_stream(msg@),
{
    let mut tokens = Vec::new();
    for event in xml::reader::EventReader::from_str(msg) {
        tokens.push(match event {
            Ok(xml::reader::XmlEvent::StartElement { name, .. }) => XmlToken::Start(name.local_name),
            Ok(xml::reader::XmlEvent::CData(data)) => XmlToken::Text(data),
            Ok(xml::reader::XmlEvent::Characters(data)) => XmlToken::Text(data),
            Ok(_) => XmlToken::Other,
            Err(_) => XmlToken::Failure,
        });
    }
    tokens
}

/// Where reading a token stream stands.
pub enum Scan {
    /// Still reading: the tags opened and not yet given a text, innermost last,
    /// and the fields read so far.
    Reading { open: Seq<Seq<char>>, fields: Map<Seq<char>, Seq<char>> },
    /// The stream reported malformed XML.
    Malformed,
    /// Text came when no opened tag was waiting for one.
    Untagged,
}

/// Reads a token stream: each opening tag waits for a text; a text is the value
/// of the innermost waiting tag, which then stops waiting; a later text for the
/// same tag name replaces an earlier one.
pub open spec fn scan(tokens: Seq<XmlTokenView>) -> Scan
    decreases tokens.len(),
{
    if tokens.len() == 0 {
        Scan::Reading { open: Seq::empty(), fields: Map::empty() }
    } else {
        match scan(tokens.drop_last()) {
            Scan::Reading { open, fields } => match tokens.last() {
                XmlTokenView::Start(name) => Scan::Reading { open: open.push(name), fields },
                XmlTokenView::Text(data) => if open.len() == 0 {
                    Scan::Untagged
                } else {
                    Scan::Reading { open: open.drop_last(), fields: fields.insert(open.last(), data) }
                },
                XmlTokenView::Failure => Scan::Malformed,
                XmlTokenView::Other => Scan::Reading { open, fields },
            },
            stopped => stopped,
        }
    }
}

/// The fields of a message: `None` for an empty message or malformed XML.
pub open spec fn message_fields(msg: Seq<char>) -> Option<Map<Seq<char>, Seq<char>>> {
    if msg.len() == 0 {
        None
    } else {
        match scan(xml_token_stream(msg)) {
            Scan::Reading { fields, .. } => Some(fields),
            _ => None,
        }
    }
}

/// Reading the message would meet a text outside any waiting tag.
pub open spec fn has_untagged_text(msg: Seq<char>) -> bool {
    msg.len() > 0 && scan(xml_token_stream(msg)) is Untagged
}

/// A map of strings holds exactly the given fields.
pub open spec fn holds_fields(m: Map<Seq<char>, String>, fields: Map<Seq<char>, Seq<char>>) -> bool {
    &&& m.dom() == fields.dom()
    &&& forall|k: Seq<char>| #[trigger] m.contains_key(k) ==> m[k]@ == fields[k]
}

/// Once reading has stopped, later tokens change nothing.
proof fn lemma_scan_stopped(tokens: Seq<XmlTokenView>, i: int, j: int)
    requires
        0 <= i <= j <= tokens.len(),
        !(scan(tokens.take(i)) is Reading),
    ensures
        scan(tokens.take(j)) == scan(tokens.take(i)),
    decreases j - i,
{
    if j > i {
        lemma_scan_stopped(tokens, i, j - 1);
        assert(tokens.take(j).drop_last() =~= tokens.take(j - 1));
    }
}

/// The outcome of reading a whole token stream.
pub enum ScanOutcome {
    Fields(StringHashMap<String>),
    Malformed,
    Untagged,
}

/// Reads a token stream as [`scan`] describes, and reports how it ended.
pub fn scan_tokens(tokens: &Vec<XmlToken>) -> (r: ScanOutcome)
    ensures
        match scan(token_views(tokens@)) {
            Scan::Reading { fields, .. } => r matches ScanOutcome::Fields(m) && holds_fields(m@, fields),
            Scan::Malformed => r is Malformed,
            Scan::Untagged => r is Untagged,
        },
{
    let ghost views = token_views(tokens@);
    let mut open: Vec<String> = Vec::new();
    let mut fields: StringHashMap<String> = StringHashMap::new();
    let mut i: usize = 0;
    assert(views.take(0) =~= Seq::<XmlTokenView>::empty());
    while i < tokens.len()
        invariant
            i <= tokens.len(),
            views == token_views(tokens@),
            scan(views.take(i as int)) matches Scan::Reading { open: o, fields: f }
                && o == open@.map_values(|s: String| s@) && holds_fields(fields@, f),
        decreases tokens.len() - i,
    {
        let ghost before = scan(views.take(i as int));
        assert(views.take(i + 1).drop_last() =~= views.take(i as int));
        assert(views.take(i + 1).last() == tokens@[i as int]@);
        match &tokens[i] {
            XmlToken::Start(name) => {
                open.push(name.clone());
                assert(open@.map_values(|s: String| s@) =~= before->open.push(name@));
            },
            XmlToken::Text(data) => {
                match open.pop() {
                    Some(name) => {
                        assert(open@.map_values(|s: String| s@) =~= before->open.drop_last());
                        fields.insert(name, data.clone());
                        assert(fields@.dom() =~= scan(views.take(i + 1))->fields.dom());
                    },
                    None => {
                        proof {
                            lemma_scan_stopped(views, i + 1, views.len() as int);
                            assert(views.take(views.len() as int) =~= views);
                        }
                        return ScanOutcome::Untagged;
                    },
                }
            },
            XmlToken::Failure => {
                proof {
                    lemma_scan_stopped(views, i + 1, views.len() as int);
                    assert(views.take(views.len() as int) =~= views);
                }
                return ScanOutcome::Malformed;
            },
            XmlToken::Other => {},
        }
        i = i + 1;
    }
    assert(views.take(tokens.len() as int) =~= views);
    ScanOutcome::Fields(fields)
}

/// Reads the fields of a token stream in which no text comes outside a waiting
/// tag: `None` where the stream reports malformed XML.
pub fn collect_fields(tokens: &Vec<XmlToken>) -> (r: Option<StringHashMap<String>>)
    requires
        !(scan(token_views(tokens@)) is Untagged),
    ensures
        match scan(token_views(tokens@)) {
            Scan::Reading { fields, .. } => r matches Some(m) && holds_fields(m@, fields),
            _ => r is None,
        },
{
    match scan_tokens(tokens) {
        ScanOutcome::Fields(m) => Some(m),
        _ => None,
    }
}

/// Parses an incoming WeChat XML message into its fields, tag name to text:
/// `None` for an empty message or malformed XML. Text outside any waiting tag
/// is excluded by `requires`; [`parse_msg_checked`] reports it instead.
pub fn parse_msg(msg: &str) -> (r: Option<StringHashMap<String>>)
    requires
        !has_untagged_text(msg@),
    ensures
        match message_fields(msg@) {
            Some(fields) => r matches Some(m) && holds_fields(m@, fields),
            None => r is None,
        },
{
    if msg.is_empty() {
        return None;
    }
    let tokens = xml_tokens(msg);
    collect_fields(&tokens)
}

/// A message that cannot be read into fields.
pub enum MsgFault {
    /// Text stands where no opened tag waits for one.
    UntaggedText,
}

/// [`parse_msg`] for every message: `Err` exactly where the message holds text
/// outside any waiting tag.
pub fn parse_msg_checked(msg: &str) -> (r: Result<Option<StringHashMap<String>>, MsgFault>)
    ensures
        has_untagged_text(msg@) <==> r is Err,
        r matches Ok(parsed) ==> match message_fields(msg@) {
            Some(fields) => parsed matches Some(m) && holds_fields(m@, fields),
            None => parsed is None,
        },
{
    if !msg.is_empty() {
        let tokens = xml_tokens(msg);
        if let ScanOutcome::Untagged = scan_tokens(&tokens) {
            return Err(MsgFault::UntaggedText);
        }
    }
    Ok(parse_msg(msg))
}

/// The XML text of a text reply from account `from` to user `to`, stamped with
/// `millis` milliseconds since the Unix epoch.
pub open spec fn reply_xml(from: Seq<char>, to: Seq<char>, content: Seq<char>, millis: nat) -> Seq<char> {
    "<xml>\n    <ToUserName>"@ + to + "</ToUserName>\n    <FromUserName>"@ + from
        + "</FromUserName>\n    <MsgType>text</MsgType>\n    <Content>"@ + content
        + "</Content>\n    <CreateTime>"@ + decimal(millis) + "</CreateTime>\n    </xml>"@
}

/// Builds the XML of a text reply at a given time, `millis` milliseconds after
/// the Unix epoch.
pub fn text_msg_at(from: &String, to: &String, content: String, millis: u128) -> (r: String)
    ensures
        r@ == reply_xml(from@, to@, content@, millis as nat),
{
    let r = "<xml>\n    <ToUserName>".to_owned();
    let r = r.concat(to.as_str());
    let r = r.concat("</ToUserName>\n    <FromUserName>");
    let r = r.concat(from.as_str());
    let r = r.concat("</FromUserName>\n    <MsgType>text</MsgType>\n    <Content>");
    let r = r.concat(content.as_str());
    let r = r.concat("</Content>\n    <CreateTime>");
    let r = r.concat(decimal_text(millis).as_str());
    r.concat("</CreateTime>\n    </xml>")
}

/// The reply XML for a clock reading: `None` exactly where the clock read a
/// time before the Unix epoch (`elapsed` is `None`), else the reply stamped
/// with the whole milliseconds of the elapsed seconds and nanoseconds.
pub open spec fn reply_at_reading(
    from: Seq<char>,
    to: Seq<char>,
    content: Seq<char>,
    elapsed: Option<(u64, u32)>,
) -> Option<Seq<char>> {
    match elapsed {
        Some(t) => Some(reply_xml(from, to, content, millis_of(t.0, t.1))),
        None => None,
    }
}

/// Builds the XML of a text reply for a clock reading: `elapsed` is the time
/// from the Unix epoch as (seconds, nanoseconds), `None` where the clock read a
/// time before the epoch.
pub fn text_msg_at_reading(from: &String, to: &String, content: String, elapsed: Option<(u64, u32)>) -> (r: Option<String>)
    ensures
        match r {
            Some(xml) => reply_at_reading(from@, to@, content@, elapsed) == Some(xml@),
            None => reply_at_reading(from@, to@, content@, elapsed) is None,
        },
{
    match elapsed {
        Some((secs, nanos)) => Some(text_msg_at(from, to, content, millis(secs, nanos))),
        None => None,
    }
}

/// Builds the XML of a text reply stamped with the current time, as
/// [`text_msg_at_reading`] does for the clock's reading: `None` when the system
/// clock reads a time before the Unix epoch.
pub fn build_text_msg(from: &String, to: &String, content: String) -> (r: Option<String>)
    ensures
        r matches Some(xml) ==> exists|secs: u64, nanos: u32|
            nanos < 1_000_000_000 && #[trigger] reply_at_reading(from@, to@, content@, Some((secs, nanos))) == Some(xml@),
{
    let elapsed = unix_time_now();
    text_msg_at_reading(from, to, content, elapsed)
}

/// What a handled message is read for.
pub struct Inbound {
    /// The official account the message was sent to (`ToUserName`).
    pub account: String,
    /// The user who sent it (`FromUserName`), who is also the user's open id.
    pub sender: String,
    /// The kind of message (`MsgType`).
    pub msg_type: String,
    /// The text of the message (`Content`).
    pub content: String,
}

/// The message has the fields that handling it reads.
pub open spec fn has_inbound_fields(fields: Map<Seq<char>, String>) -> bool {
    &&& fields.contains_key("ToUserName"@)
    &&& fields.contains_key("FromUserName"@)
    &&& fields.contains_key("MsgType"@)
    &&& fields.contains_key("Content"@)
}

/// Picks the account, sender, kind and text out of a message's fields.
pub fn read_inbound(fields: &StringHashMap<String>) -> (r: Inbound)
    requires
        has_inbound_fields(fields@),
    ensures
        r.account@ == fields@["ToUserName"@]@,
        r.sender@ == fields@["FromUserName"@]@,
        r.msg_type@ == fields@["MsgType"@]@,
        r.content@ == fields@["Content"@]@,
{
    let account = fields.get("ToUserName").unwrap().clone();
    let sender = fields.get("FromUserName").unwrap().clone();
    let msg_type = fields.get("MsgType").unwrap().clone();
    let content = fields.get("Content").unwrap().clone();
    Inbound { account, sender, msg_type, content }
}

/// How an incoming message is handled.
pub enum Handling {
    /// Run this dialog, which asks for this first action; its answer is the
    /// reply's content.
    Run(Dialog, Action),
    /// Reply with this content at once.
    Answer(String),
}

impl Inbound {
    /// The reply to this message carrying `answer`, for a clock reading: sent
    /// from the account the message came to, to its sender.
    pub fn reply_at(&self, answer: String, elapsed: Option<(u64, u32)>) -> (r: Option<String>)
        ensures
            match r {
                Some(xml) => reply_at_reading(self.account@, self.sender@, answer@, elapsed) == Some(xml@),
                None => reply_at_reading(self.account@, self.sender@, answer@, elapsed) is None,
            },
    {
        text_msg_at_reading(&self.account, &self.sender, answer, elapsed)
    }

    /// The reply to this message carrying `answer`, stamped now: sent from the
    /// account the message came to, to its sender; `None` when the system clock
    /// reads a time before the Unix epoch.
    pub fn reply(&self, answer: String) -> (r: Option<String>)
        ensures
            r matches Some(xml) ==> exists|secs: u64, nanos: u32|
                nanos < 1_000_000_000
                && #[trigger] reply_at_reading(self.account@, self.sender@, answer@, Some((secs, nanos))) == Some(xml@),
    {
        build_text_msg(&self.account, &self.sender, answer)
    }

    /// How the message is handled: a text message starts the dialog for its
    /// sender with its content as the command; any other kind is answered with
    /// empty content.
    pub fn handling(&self) -> (h: Handling)
        ensures
            match h {
                Handling::Run(d, a) => {
                    &&& self.msg_type@ == "text"@
                    &&& d@ == (DialogView {
                        open_id: self.sender@,
                        command: self.content@,
                        state_read: 0,
                        stage: StageView::ReadingState,
                    })
                    &&& d@.wf()
                    &&& a@ == ActionView::LoadUser(self.sender@)
                },
                Handling::Answer(content) => self.msg_type@ != "text"@ && content@ == Seq::<char>::empty(),
            },
    {
        if self.is_text() {
            let (d, a) = dispatch_command(self.sender.clone(), self.content.clone());
            Handling::Run(d, a)
        } else {
            Handling::Answer(String::new())
        }
    }

    /// A text message, the only kind that is answered with a command's result.
    pub fn is_text(&self) -> (r: bool)
        ensures
            r == (self.msg_type@ == "text"@),
    {
        self.msg_type == "text".to_owned()
    }
}

} // verus!
