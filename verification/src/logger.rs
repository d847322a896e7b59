//! The game's log: log4j events, printed as XML on the game's standard output,
//! read back into structured events.
use vstd::prelude::*;

use crate::bindings::{level_named, parse_level, xml_events, xml_events_of};
use crate::text::{contains_seq, contains_text, replace_text, replaced, str_eq};

verus! {

/// The level of a log event.
#[derive(Clone, Copy, Debug, PartialEq, Eq, Structural)]
pub enum LogLevel {
    Trace,
    Debug,
    Info,
    Warn,
    Error,
}

/// The name a level is printed with.
pub open spec fn level_text(level: LogLevel) -> Seq<char> {
    match level {
        LogLevel::Trace => "TRACE"@,
        LogLevel::Debug => "DEBUG"@,
        LogLevel::Info => "INFO"@,
        LogLevel::Warn => "WARN"@,
        LogLevel::Error => "ERROR"@,
    }
}

impl LogLevel {
    /// The name the level is printed with.
    pub fn as_str(&self) -> (r: &'static str)
        ensures
            r@ == level_text(*self),
    {
        match self {
            LogLevel::Trace => "TRACE",
            LogLevel::Debug => "DEBUG",
            LogLevel::Info => "INFO",
            LogLevel::Warn => "WARN",
            LogLevel::Error => "ERROR",
        }
    }
}

/// One event of the game's log.
#[derive(Debug)]
pub struct LoggerEvent {
    pub level: LogLevel,
    pub logger: String,
    pub thread: String,
    pub timestamp: String,
    pub message: Option<String>,
}

impl Default for LoggerEvent {
    /// A trace event with empty texts and no message.
    fn default() -> (r: Self)
        ensures
            r.level == LogLevel::Trace,
            r.logger@ == Seq::<char>::empty(),
            r.thread@ == Seq::<char>::empty(),
            r.timestamp@ == Seq::<char>::empty(),
            r.message is None,
    {
        LoggerEvent {
            level: LogLevel::Trace,
            message: None,
            logger: String::new(),
            thread: String::new(),
            timestamp: String::new(),
        }
    }
}

/// How an event is printed: `[thread/LEVEL]: message`, with an empty message when there is none.
pub open spec fn event_text(e: LoggerEvent) -> Seq<char> {
    "["@ + e.thread@ + "/"@ + level_text(e.level) + "]: "@ + match e.message {
        Some(m) => m@,
        None => Seq::empty(),
    }
}

impl LoggerEvent {
    pub fn level(&self) -> (r: &LogLevel)
        ensures
            *r == self.level,
    {
        &self.level
    }

    pub fn logger(&self) -> (r: &str)
        ensures
            r@ == self.logger@,
    {
        self.logger.as_str()
    }

    pub fn thread(&self) -> (r: &str)
        ensures
            r@ == self.thread@,
    {
        self.thread.as_str()
    }

    pub fn timestamp(&self) -> (r: &str)
        ensures
            r@ == self.timestamp@,
    {
        self.timestamp.as_str()
    }

    pub fn message(&self) -> (r: Option<&str>)
        ensures
            r is Some <==> self.message is Some,
            r matches Some(m) ==> m@ == self.message->0@,
    {
        match &self.message {
            Some(m) => Some(m.as_str()),
            None => None,
        }
    }

    /// The event as it is printed.
    pub fn to_display_string(&self) -> (r: String)
        ensures
            r@ == event_text(*self),
    {
        let mut out = String::from_str("[");
        out.append(self.thread.as_str());
        out.append("/");
        out.append(self.level.as_str());
        out.append("]: ");
        match &self.message {
            Some(m) => {
                out.append(m.as_str());
            },
            None => {},
        }
        out
    }
}

/// Why a log event could not be built.
#[derive(Debug)]
pub enum LoggerEventBuilderError {
    /// The named field was never set.
    UninitializedField(&'static str),
    ValidationError(String),
}

/// Collects the parts of a log event; each setter replaces what it set before.
#[derive(Debug)]
pub struct LoggerEventBuilder {
    pub level: Option<LogLevel>,
    pub logger: Option<String>,
    pub thread: Option<String>,
    pub timestamp: Option<String>,
    pub message: Option<Option<String>>,
}

/// The event a builder builds: the first of level, logger, thread and timestamp
/// that is unset is reported; the message is `None` unless it was set.
pub open spec fn built(b: LoggerEventBuilder) -> Result<LoggerEvent, Seq<char>> {
    if b.level is None {
        Err("level"@)
    } else if b.logger is None {
        Err("logger"@)
    } else if b.thread is None {
        Err("thread"@)
    } else if b.timestamp is None {
        Err("timestamp"@)
    } else {
        Ok(
            LoggerEvent {
                level: b.level->0,
                logger: b.logger->0,
                thread: b.thread->0,
                timestamp: b.timestamp->0,
                message: match b.message {
                    Some(m) => m,
                    None => None,
                },
            },
        )
    }
}

impl LoggerEventBuilder {
    /// A builder with nothing set.
    pub fn create_empty() -> (r: Self)
        ensures
            r == empty_builder(),
    {
        LoggerEventBuilder { level: None, logger: None, thread: None, timestamp: None, message: None }
    }

    /// Builds the event; see `built`.
    pub fn build(&self) -> (r: Result<LoggerEvent, LoggerEventBuilderError>)
        ensures
            built(*self) matches Ok(e) ==> r == Ok::<LoggerEvent, LoggerEventBuilderError>(e),
            built(*self) matches Err(field) ==> (r matches Err(LoggerEventBuilderError::UninitializedField(f)) && f@ == field),
    {
        let level = match self.level {
            Some(l) => l,
            None => {
                return Err(LoggerEventBuilderError::UninitializedField("level"));
            },
        };
        let logger = match &self.logger {
            Some(x) => x.clone(),
            None => {
                return Err(LoggerEventBuilderError::UninitializedField("logger"));
            },
        };
        let thread = match &self.thread {
            Some(x) => x.clone(),
            None => {
                return Err(LoggerEventBuilderError::UninitializedField("thread"));
            },
        };
        let timestamp = match &self.timestamp {
            Some(x) => x.clone(),
            None => {
                return Err(LoggerEventBuilderError::UninitializedField("timestamp"));
            },
        };
        let message = match &self.message {
            Some(Some(m)) => Some(m.clone()),
            _ => None,
        };
        Ok(LoggerEvent { level, logger, thread, timestamp, message })
    }
}

/// A builder with nothing set.
pub open spec fn empty_builder() -> LoggerEventBuilder {
    LoggerEventBuilder { level: None, logger: None, thread: None, timestamp: None, message: None }
}

/// An attribute of an XML start tag.
#[derive(Debug)]
pub struct XmlAttribute {
    pub local_name: String,
    pub value: String,
}

/// An XML event, reduced to what the log parser reads.
#[derive(Debug)]
pub enum XmlItem {
    StartElement { attributes: Vec<XmlAttribute> },
    CData(String),
    EndElement,
    Other,
    Error,
}

/// Errors while reading the game's log.
#[derive(Debug)]
pub enum LoggerEventError {
    /// A complete event lacked a field.
    Builder { source: LoggerEventBuilderError, xml: String },
    /// A start tag had an attribute other than logger, timestamp, level and thread.
    UnhandlededAttribute { attribute: String },
    /// The level attribute named no level.
    InvalidLevel { level: String },
}

/// The XML read so far does not hold a whole event yet.
#[derive(Debug)]
pub struct XmlNotFinished;

/// What reading the attributes or the events comes to.
pub enum LogStep {
    /// Reading went through, leaving this builder; `complete` tells whether an end tag was seen.
    Read { builder: LoggerEventBuilder, complete: bool },
    /// An attribute was refused.
    Refused(LoggerEventError),
    /// The XML broke off.
    Unfinished,
}

/// The builder after reading one attribute, or the error it causes.
pub open spec fn apply_attribute(b: LoggerEventBuilder, a: XmlAttribute) -> Result<LoggerEventBuilder, LoggerEventError> {
    if a.local_name@ == "logger"@ {
        Ok(LoggerEventBuilder { logger: Some(a.value), ..b })
    } else if a.local_name@ == "timestamp"@ {
        Ok(LoggerEventBuilder { timestamp: Some(a.value), ..b })
    } else if a.local_name@ == "level"@ {
        match level_named(a.value@) {
            Some(l) => Ok(LoggerEventBuilder { level: Some(l), ..b }),
            None => Err(LoggerEventError::InvalidLevel { level: a.value }),
        }
    } else if a.local_name@ == "thread"@ {
        Ok(LoggerEventBuilder { thread: Some(a.value), ..b })
    } else {
        Err(LoggerEventError::UnhandlededAttribute { attribute: a.local_name })
    }
}

/// The builder after reading the attributes from the left, or the first error.
pub open spec fn apply_attributes(b: LoggerEventBuilder, attrs: Seq<XmlAttribute>) -> Result<LoggerEventBuilder, LoggerEventError>
    decreases attrs.len(),
{
    if attrs.len() == 0 {
        Ok(b)
    } else {
        match apply_attribute(b, attrs[0]) {
            Ok(b2) => apply_attributes(b2, attrs.drop_first()),
            Err(e) => Err(e),
        }
    }
}

/// What reading `events` from the left comes to, starting from `b` and `complete`.
pub open spec fn read_events(b: LoggerEventBuilder, complete: bool, events: Seq<XmlItem>) -> LogStep
    decreases events.len(),
{
    if events.len() == 0 {
        LogStep::Read { builder: b, complete }
    } else {
        match events[0] {
            XmlItem::StartElement { attributes } => match apply_attributes(b, attributes@) {
                Ok(b2) => read_events(b2, complete, events.drop_first()),
                Err(e) => LogStep::Refused(e),
            },
            XmlItem::CData(x) => read_events(LoggerEventBuilder { message: Some(Some(x)), ..b }, complete, events.drop_first()),
            XmlItem::EndElement => read_events(b, true, events.drop_first()),
            XmlItem::Other => read_events(b, complete, events.drop_first()),
            XmlItem::Error => LogStep::Unfinished,
        }
    }
}

/// The result of reading a log event from `events`: an error for a refused
/// attribute; not finished when the XML broke off or no end tag was seen; else
/// the built event, or an error naming the first missing field.
pub open spec fn log_events_result(events: Seq<XmlItem>, xml: Seq<char>, r: Result<Result<LoggerEvent, XmlNotFinished>, LoggerEventError>) -> bool {
    match read_events(empty_builder(), false, events) {
        LogStep::Refused(e) => r == Err::<Result<LoggerEvent, XmlNotFinished>, LoggerEventError>(e),
        LogStep::Unfinished => (r matches Ok(Err(_))),
        LogStep::Read { builder, complete } => if !complete {
            (r matches Ok(Err(_)))
        } else {
            match built(builder) {
                Ok(e) => r == Ok::<Result<LoggerEvent, XmlNotFinished>, LoggerEventError>(Ok(e)),
                Err(field) => (r matches Err(LoggerEventError::Builder { source: LoggerEventBuilderError::UninitializedField(f), xml: x })
                    && f@ == field && x@ == xml),
            }
        },
    }
}

/// Reads the attributes of a start tag into `builder`.
fn read_attributes(builder: &mut LoggerEventBuilder, attributes: &Vec<XmlAttribute>) -> (r: Result<(), LoggerEventError>)
    ensures
        apply_attributes(*old(builder), attributes@) matches Ok(b) ==> r is Ok && *final(builder) == b,
        apply_attributes(*old(builder), attributes@) matches Err(e) ==> r == Err::<(), LoggerEventError>(e),
{
    let ghost start = *builder;
    let mut i: usize = 0;
    assert(attributes@.skip(0) =~= attributes@);
    while i < attributes.len()
        invariant
            i <= attributes.len(),
            start == *old(builder),
            apply_attributes(start, attributes@) == apply_attributes(*builder, attributes@.skip(i as int)),
        decreases attributes.len() - i,
    {
        let a = &attributes[i];
        assert(attributes@.skip(i as int)[0] == attributes@[i as int]);
        assert(attributes@.skip(i as int).drop_first() =~= attributes@.skip(i + 1));
        if str_eq(a.local_name.as_str(), "logger") {
            builder.logger = Some(a.value.clone());
        } else if str_eq(a.local_name.as_str(), "timestamp") {
            builder.timestamp = Some(a.value.clone());
        } else if str_eq(a.local_name.as_str(), "level") {
            match parse_level(a.value.as_str()) {
                Some(l) => {
                    builder.level = Some(l);
                },
                None => {
                    return Err(LoggerEventError::InvalidLevel { level: a.value.clone() });
                },
            }
        } else if str_eq(a.local_name.as_str(), "thread") {
            builder.thread = Some(a.value.clone());
        } else {
            return Err(LoggerEventError::UnhandlededAttribute { attribute: a.local_name.clone() });
        }
        i = i + 1;
    }
    assert(attributes@.skip(i as int) =~= Seq::<XmlAttribute>::empty());
    Ok(())
}

/// Reads one log event from the XML events of `xml`; see `log_events_result`.
pub fn parse_log_events(events: &Vec<XmlItem>, xml: &str) -> (r: Result<Result<LoggerEvent, XmlNotFinished>, LoggerEventError>)
    ensures
        log_events_result(events@, xml@, r),
{
    let mut builder = LoggerEventBuilder::create_empty();
    let mut is_complete = false;
    let mut i: usize = 0;
    assert(events@.skip(0) =~= events@);
    while i < events.len()
        invariant
            i <= events.len(),
            read_events(empty_builder(), false, events@) == read_events(builder, is_complete, events@.skip(i as int)),
        decreases events.len() - i,
    {
        assert(events@.skip(i as int)[0] == events@[i as int]);
        assert(events@.skip(i as int).drop_first() =~= events@.skip(i + 1));
        match &events[i] {
            XmlItem::StartElement { attributes } => {
                let res = read_attributes(&mut builder, attributes);
                match res {
                    Ok(()) => {},
                    Err(e) => {
                        return Err(e);
                    },
                }
            },
            XmlItem::CData(x) => {
                builder.message = Some(Some(x.clone()));
            },
            XmlItem::EndElement => {
                is_complete = true;
            },
            XmlItem::Other => {},
            XmlItem::Error => {
                return Ok(Err(XmlNotFinished));
            },
        }
        i = i + 1;
    }
    assert(events@.skip(i as int) =~= Seq::<XmlItem>::empty());
    if is_complete {
        match builder.build() {
            Ok(e) => Ok(Ok(e)),
            Err(source) => Err(LoggerEventError::Builder { source, xml: xml.to_owned() }),
        }
    } else {
        Ok(Err(XmlNotFinished))
    }
}

/// Reads one log event from the XML text `xml`.
pub fn try_parse_xml(xml: &str) -> (r: Result<Result<LoggerEvent, XmlNotFinished>, LoggerEventError>)
    ensures
        log_events_result(xml_events_of(xml@), xml@, r),
{
    let events = xml_events(xml);
    parse_log_events(&events, xml)
}

/// Feeds one line of the game's output to the log reader. Lines without
/// `log4j` are skipped. Otherwise the line, without its `log4j:` prefixes, is
/// added to `total`; when `total` then holds a whole event, the event is
/// returned and `total` is emptied.
pub fn feed_log_line(total: &mut String, line: &str) -> (r: Result<Option<LoggerEvent>, LoggerEventError>)
    ensures
        !contains_seq(line@, "log4j"@) ==> (r matches Ok(None)) && final(total)@ == old(total)@,
        contains_seq(line@, "log4j"@) ==> {
            let text = old(total)@ + replaced(line@, "log4j:"@, Seq::empty());
            &&& (r matches Ok(Some(e)) ==> final(total)@ == Seq::<char>::empty()
                && log_events_result(xml_events_of(text), text, Ok(Ok(e))))
            &&& (r matches Ok(None) ==> final(total)@ == text
                && log_events_result(xml_events_of(text), text, Ok(Err(XmlNotFinished))))
            &&& (r matches Err(e) ==> final(total)@ == text
                && log_events_result(xml_events_of(text), text, Err(e)))
        },
{
    if !contains_text(line, "log4j") {
        return Ok(None);
    }
    proof {
        reveal_strlit("log4j:");
        reveal_strlit("");
        assert(""@ =~= Seq::<char>::empty());
    }
    let stripped = replace_text(line, "log4j:", "");
    total.append(stripped.as_str());
    let ghost text = total@;
    assert(text == old(total)@ + replaced(line@, "log4j:"@, Seq::empty()));
    match try_parse_xml(total.as_str()) {
        Err(e) => {
            assert(log_events_result(xml_events_of(text), text, Err(e)));
            Err(e)
        },
        Ok(Ok(event)) => {
            assert(log_events_result(xml_events_of(text), text, Ok(Ok(event))));
            *total = String::new();
            Ok(Some(event))
        },
        Ok(Err(unfinished)) => {
            assert(log_events_result(xml_events_of(text), text, Ok(Err(unfinished))));
            Ok(None)
        },
    }
}

} // verus!
