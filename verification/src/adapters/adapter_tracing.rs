use crate::adapters::adapter_tracing_builder::{TracingAdapterBuilder, TracingConfig};
use crate::adapters::numerals::{decimal_string, decimal_text, hex_string, hex_text};
use crate::adapters::severity::{LevelFilter, Severity};
use crate::logger::{
    emission_matches, Emission, Lifecycle, Logger, LoggerView, ShutdownAction,
};
use crate::types::{pairs, Attribute, LogLevel};
use vstd::prelude::*;
use vstd::string::*;

verus! {

/// The span that was current when an event was recorded.
#[derive(Debug)]
pub struct SpanContext {
    pub id: u64,
    /// The span's name, where the registry still knows the span.
    pub name: Option<String>,
}

/// What the adapter reads of one tracing event.
#[derive(Debug)]
pub struct EventRecord {
    pub severity: Severity,
    /// The event's recorded fields, each name once.
    pub fields: Vec<Attribute>,
    pub target: String,
    pub file: Option<String>,
    pub line: Option<u32>,
    pub module: Option<String>,
    pub current_span: Option<SpanContext>,
    /// The parent span that the event names explicitly.
    pub parent: Option<u64>,
}

/// What the adapter reads of a span that is being created.
#[derive(Debug)]
pub struct SpanRecord {
    pub id: u64,
    pub name: String,
    /// The parent span that the new span names explicitly.
    pub parent: Option<u64>,
}

/// The attributes that an event is shipped with: its fields, then where it
/// was recorded, then the span it belongs to.
pub open spec fn event_pairs(event: EventRecord) -> Seq<(Seq<char>, Seq<char>)> {
    let with_target = pairs(event.fields@).push(("target"@, event.target@));
    let with_file = match event.file {
        Some(file) => with_target.push(("file"@, file@)),
        None => with_target,
    };
    let with_line = match event.line {
        Some(line) => with_file.push(("line"@, decimal_text(line as nat))),
        None => with_file,
    };
    let with_module = match event.module {
        Some(path) => with_line.push(("module\x5fpath"@, path@)),
        None => with_line,
    };
    match event.current_span {
        None => with_module,
        Some(span) => {
            let with_id = if event.parent is None {
                with_module.push(("trace.span.id"@, hex_text(span.id as nat)))
            } else {
                with_module
            };
            let with_name = match span.name {
                Some(name) => with_id.push(("trace.span.name"@, name@)),
                None => with_id,
            };
            match event.parent {
                Some(parent) => with_name.push(("trace.span.parent.id"@, hex_text(parent as nat))),
                None => with_name,
            }
        },
    }
}

/// The attributes that the creation of a span is shipped with.
pub open spec fn span_pairs(span: SpanRecord) -> Seq<(Seq<char>, Seq<char>)> {
    let start = match span.parent {
        Some(parent) => seq![("trace.span.parent.id"@, hex_text(parent as nat))],
        None => Seq::empty(),
    };
    start.push(("trace.span.id"@, hex_text(span.id as nat))).push(("trace.span.name"@, span.name@))
}

/// The value of the first pair with the key, if any pair has it.
pub open spec fn first_value(attrs: Seq<(Seq<char>, Seq<char>)>, key: Seq<char>) -> Option<
    Seq<char>,
>
    decreases attrs.len(),
{
    if attrs.len() == 0 {
        None
    } else if attrs[0].0 == key {
        Some(attrs[0].1)
    } else {
        first_value(attrs.skip(1), key)
    }
}

/// The message of an event: its first `message` attribute, or a stand-in.
pub open spec fn message_text(attrs: Seq<(Seq<char>, Seq<char>)>) -> Seq<char> {
    match first_value(attrs, "message"@) {
        Some(text) => text,
        None => "<no message>"@,
    }
}

/// The message under which the creation of a span is logged.
pub open spec fn span_message(name: Seq<char>) -> Seq<char> {
    "Entered span: "@ + name
}

/// Collects the attributes of an event.
pub fn event_attributes(event: &EventRecord) -> (attrs: Vec<Attribute>)
    ensures
        pairs(attrs@) == event_pairs(*event),
{
    let mut attrs: Vec<Attribute> = Vec::new();
    let mut i: usize = 0;
    while i < event.fields.len()
        invariant
            i <= event.fields.len(),
            pairs(attrs@) == pairs(event.fields@).take(i as int),
        decreases event.fields.len() - i,
    {
        let field = &event.fields[i];
        let ghost before = attrs@;
        attrs.push(Attribute::new(field.key.as_str(), field.value.as_str()));
        proof {
            assert(pairs(event.fields@)[i as int] == event.fields@[i as int]@);
            assert(pairs(attrs@) =~= pairs(before).push(field@));
            assert(pairs(event.fields@).take(i + 1) =~= pairs(before).push(field@));
        }
        i += 1;
    }
    assert(pairs(event.fields@).take(i as int) =~= pairs(event.fields@));
    let ghost mut built = pairs(attrs@);
    attrs.push(Attribute::new("target", event.target.as_str()));
    proof {
        built = built.push(("target"@, event.target@));
        assert(pairs(attrs@) =~= built);
    }
    if let Some(file) = &event.file {
        attrs.push(Attribute::new("file", file.as_str()));
        proof {
            built = built.push(("file"@, file@));
            assert(pairs(attrs@) =~= built);
        }
    }
    if let Some(line) = event.line {
        let text = decimal_string(line);
        attrs.push(Attribute::new("line", text.as_str()));
        proof {
            built = built.push(("line"@, text@));
            assert(pairs(attrs@) =~= built);
        }
    }
    if let Some(path) = &event.module {
        attrs.push(Attribute::new("module\x5fpath", path.as_str()));
        proof {
            built = built.push(("module\x5fpath"@, path@));
            assert(pairs(attrs@) =~= built);
        }
    }
    if let Some(span) = &event.current_span {
        if event.parent.is_none() {
            let text = hex_string(span.id);
            attrs.push(Attribute::new("trace.span.id", text.as_str()));
            proof {
                built = built.push(("trace.span.id"@, text@));
                assert(pairs(attrs@) =~= built);
            }
        }
        if let Some(name) = &span.name {
            attrs.push(Attribute::new("trace.span.name", name.as_str()));
            proof {
                built = built.push(("trace.span.name"@, name@));
                assert(pairs(attrs@) =~= built);
            }
        }
        if let Some(parent) = event.parent {
            let text = hex_string(parent);
            attrs.push(Attribute::new("trace.span.parent.id", text.as_str()));
            proof {
                built = built.push(("trace.span.parent.id"@, text@));
                assert(pairs(attrs@) =~= built);
            }
        }
    }
    attrs
}

/// Collects the attributes of a new span.
pub fn span_attributes(span: &SpanRecord) -> (attrs: Vec<Attribute>)
    ensures
        pairs(attrs@) == span_pairs(*span),
{
    let mut attrs: Vec<Attribute> = Vec::new();
    let ghost mut built = pairs(attrs@);
    assert(built =~= Seq::empty());
    if let Some(parent) = span.parent {
        let text = hex_string(parent);
        attrs.push(Attribute::new("trace.span.parent.id", text.as_str()));
        proof {
            built = built.push(("trace.span.parent.id"@, text@));
            assert(pairs(attrs@) =~= built);
        }
    }
    let text = hex_string(span.id);
    attrs.push(Attribute::new("trace.span.id", text.as_str()));
    proof {
        built = built.push(("trace.span.id"@, text@));
        assert(pairs(attrs@) =~= built);
    }
    attrs.push(Attribute::new("trace.span.name", span.name.as_str()));
    proof {
        built = built.push(("trace.span.name"@, span.name@));
        assert(pairs(attrs@) =~= built);
    }
    attrs
}

/// Picks the message of an event out of its attributes.
pub fn event_message(attrs: &Vec<Attribute>) -> (message: String)
    ensures
        message@ == message_text(pairs(attrs@)),
{
    let wanted = String::from_str("message");
    let mut i: usize = 0;
    assert(pairs(attrs@).skip(0) =~= pairs(attrs@));
    while i < attrs.len()
        invariant
            i <= attrs.len(),
            wanted@ == "message"@,
            first_value(pairs(attrs@), "message"@) == first_value(
                pairs(attrs@).skip(i as int),
                "message"@,
            ),
        decreases attrs.len() - i,
    {
        proof {
            assert(pairs(attrs@).skip(i as int).skip(1) =~= pairs(attrs@).skip(i + 1));
        }
        if attrs[i].key == wanted {
            return attrs[i].value.clone();
        }
        i += 1;
    }
    String::from_str("<no message>")
}

/// What a tracing adapter is made of.
pub ghost struct TracingAdapterView {
    pub logger: LoggerView,
    pub level_filter: LevelFilter,
}

/// Feeds the events and spans of a tracing framework into a logger.
#[derive(Debug, Clone)]
pub struct TracingAdapter {
    vigilant_logger: Logger,
    level_filter: LevelFilter,
}

impl View for TracingAdapter {
    type V = TracingAdapterView;

    closed spec fn view(&self) -> TracingAdapterView {
        TracingAdapterView { logger: self.vigilant_logger@, level_filter: self.level_filter }
    }
}

impl TracingAdapter {
    pub fn new(vigilant_logger: Logger, level_filter: LevelFilter) -> (adapter: Self)
        ensures
            adapter@ == (TracingAdapterView { logger: vigilant_logger@, level_filter }),
    {
        Self { vigilant_logger, level_filter }
    }

    pub fn builder<'a>() -> (b: TracingAdapterBuilder<'a>)
        ensures
            b@ == TracingConfig::defaults(),
    {
        TracingAdapterBuilder::new()
    }

    /// The logger that events and spans are forwarded to.
    pub fn logger(&self) -> (l: &Logger)
        ensures
            l@ == self@.logger,
    {
        &self.vigilant_logger
    }

    /// Shutdown of the logger behind the adapter.
    pub fn shutdown(&self, lifecycle: &mut Lifecycle) -> (action: ShutdownAction)
        ensures
            *final(lifecycle) == old(lifecycle).shutdown_state(),
            action == old(lifecycle).shutdown_action(),
    {
        self.vigilant_logger.shutdown(lifecycle)
    }

    /// One event. An event that the filter does not admit is dropped; any
    /// other becomes a log call at the level that its severity maps to,
    /// with the event's attributes, under the event's message.
    pub fn on_event(&self, event: &EventRecord) -> (out: Option<Emission>)
        ensures
            (!self@.level_filter.admits(event.severity) || self@.logger.noop) ==> out is None,
            (self@.level_filter.admits(event.severity) && !self@.logger.noop) ==> out is Some
                && emission_matches(
                out.unwrap(),
                self@.logger,
                event.severity.level_spec(),
                message_text(event_pairs(*event)),
                None,
                event_pairs(*event),
                out.unwrap().entry.timestamp@,
            ),
    {
        if !self.level_filter.enabled(event.severity) {
            return None;
        }
        let attributes = event_attributes(event);
        let message = event_message(&attributes);
        match event.severity.level() {
            LogLevel::ERROR => self.vigilant_logger.error_with_attrs(message.as_str(), attributes),
            LogLevel::WARNING => self.vigilant_logger.warn_with_attrs(message.as_str(), attributes),
            LogLevel::INFO => self.vigilant_logger.info_with_attrs(message.as_str(), attributes),
            LogLevel::DEBUG => self.vigilant_logger.debug_with_attrs(message.as_str(), attributes),
        }
    }

    /// The creation of a span: always an info entry that names the span,
    /// whatever the filter.
    pub fn on_new_span(&self, span: &SpanRecord) -> (out: Option<Emission>)
        ensures
            self@.logger.noop ==> out is None,
            !self@.logger.noop ==> out is Some && emission_matches(
                out.unwrap(),
                self@.logger,
                LogLevel::INFO,
                span_message(span.name@),
                None,
                span_pairs(*span),
                out.unwrap().entry.timestamp@,
            ),
    {
        let attributes = span_attributes(span);
        let mut message = String::from_str("Entered span: ");
        message.append(span.name.as_str());
        self.vigilant_logger.info_with_attrs(message.as_str(), attributes)
    }
}

} // verus!
