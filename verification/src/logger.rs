use crate::types::{
    attribute_map, distinct_keys, pairs, set_attribute, Attribute, LogLevel, LogMessage,
};
use vstd::prelude::*;
use vstd::string::*;

verus! {

/// The address that batches are posted to: `http` for an insecure logger,
/// `https` otherwise, then the host and the ingestion route.
pub open spec fn endpoint_url(endpoint: Seq<char>, insecure: bool) -> Seq<char> {
    (if insecure {
        "http://"@
    } else {
        "https://"@
    }) + endpoint + "/api/message"@
}

/// The address for a configured host.
pub fn format_endpoint(endpoint: &str, insecure: bool) -> (url: String)
    ensures
        url@ == endpoint_url(endpoint@, insecure),
{
    let mut url = if insecure {
        String::from_str("http://")
    } else {
        String::from_str("https://")
    };
    url.append(endpoint);
    url.append("/api/message");
    url
}

/// The views of an optional text.
pub open spec fn text_view(text: Option<&str>) -> Option<Seq<char>> {
    match text {
        Some(t) => Some(t@),
        None => None,
    }
}

/// The line that passthrough echoes for one log call: the level in square
/// brackets, the message, and the error detail where there is one.
pub open spec fn passthrough_text(level: LogLevel, message: Seq<char>, err: Option<Seq<char>>) -> Seq<
    char,
> {
    let head = "["@ + level.name_spec() + "] "@ + message;
    match err {
        Some(detail) => head + " error=\""@ + detail + "\""@,
        None => head,
    }
}

/// The console line for one log call.
pub fn passthrough_line(level: LogLevel, message: &str, err: Option<&str>) -> (line: String)
    ensures
        line@ == passthrough_text(level, message@, text_view(err)),
{
    let mut line = String::from_str("[");
    line.append(level.name());
    line.append("] ");
    line.append(message);
    if let Some(detail) = err {
        line.append(" error=\"");
        line.append(detail);
        line.append("\"");
    }
    line
}

/// `base` with each of the pairs inserted, first to last, so that a later
/// pair overwrites an earlier one and any entry of `base` with its key.
pub open spec fn merge_attributes(
    base: Map<Seq<char>, Seq<char>>,
    attrs: Seq<(Seq<char>, Seq<char>)>,
) -> Map<Seq<char>, Seq<char>>
    decreases attrs.len(),
{
    if attrs.len() == 0 {
        base
    } else {
        merge_attributes(base, attrs.drop_last()).insert(attrs.last().0, attrs.last().1)
    }
}

/// The attributes of an entry: the service name under `service.name`, then
/// the caller's pairs over it, then the error detail under `error`.
pub open spec fn entry_attributes(
    name: Seq<char>,
    attrs: Seq<(Seq<char>, Seq<char>)>,
    err: Option<Seq<char>>,
) -> Map<Seq<char>, Seq<char>> {
    let merged = merge_attributes(Map::empty().insert("service.name"@, name), attrs);
    match err {
        Some(detail) => merged.insert("error"@, detail),
        None => merged,
    }
}

/// The value of the last pair with the key, if any pair has it.
pub open spec fn last_value(attrs: Seq<(Seq<char>, Seq<char>)>, key: Seq<char>) -> Option<
    Seq<char>,
>
    decreases attrs.len(),
{
    if attrs.len() == 0 {
        None
    } else if attrs.last().0 == key {
        Some(attrs.last().1)
    } else {
        last_value(attrs.drop_last(), key)
    }
}

/// Last write wins: after a merge a key holds the value of the last pair
/// that names it, and what `base` held where no pair names it.
pub proof fn lemma_merge_lookup(
    base: Map<Seq<char>, Seq<char>>,
    attrs: Seq<(Seq<char>, Seq<char>)>,
    key: Seq<char>,
)
    ensures
        merge_attributes(base, attrs).dom().contains(key) <==> (last_value(attrs, key) is Some
            || base.dom().contains(key)),
        last_value(attrs, key) is Some ==> merge_attributes(base, attrs)[key] == last_value(
            attrs,
            key,
        ).unwrap(),
        last_value(attrs, key) is None && base.dom().contains(key) ==> merge_attributes(
            base,
            attrs,
        )[key] == base[key],
    decreases attrs.len(),
{
    if attrs.len() > 0 {
        lemma_merge_lookup(base, attrs.drop_last(), key);
    }
}

/// Every entry has a `service.name`: the value of the caller's last
/// `service.name` attribute where the caller gave one, and the logger's
/// configured name otherwise.
pub proof fn lemma_service_name(
    name: Seq<char>,
    attrs: Seq<(Seq<char>, Seq<char>)>,
    err: Option<Seq<char>>,
)
    ensures
        entry_attributes(name, attrs, err).dom().contains("service.name"@),
        entry_attributes(name, attrs, err)["service.name"@] == (match last_value(
            attrs,
            "service.name"@,
        ) {
            Some(value) => value,
            None => name,
        }),
{
    reveal_strlit("service.name");
    reveal_strlit("error");
    assert("service.name"@.len() != "error"@.len());
    lemma_merge_lookup(Map::empty().insert("service.name"@, name), attrs, "service.name"@);
}

/// What a logger is made of: the service name, where and under which token
/// its batches go, and its two switches.
pub ghost struct LoggerView {
    pub name: Seq<char>,
    pub url: Seq<char>,
    pub token: Seq<char>,
    pub passthrough: bool,
    pub noop: bool,
}

/// What one log call gives rise to: the entry for the queue and, under
/// passthrough, the line for the console.
#[derive(Debug)]
pub struct Emission {
    pub entry: LogMessage,
    pub console: Option<String>,
}

/// The emission that a log call owes on a logger that is not a noop.
pub open spec fn emission_matches(
    emission: Emission,
    logger: LoggerView,
    level: LogLevel,
    message: Seq<char>,
    err: Option<Seq<char>>,
    attrs: Seq<(Seq<char>, Seq<char>)>,
    timestamp: Seq<char>,
) -> bool {
    &&& emission.entry.wf()
    &&& emission.entry.timestamp@ == timestamp
    &&& emission.entry.body@ == message
    &&& emission.entry.level == level
    &&& attribute_map(emission.entry.attributes@) == entry_attributes(logger.name, attrs, err)
    &&& emission.console is Some <==> logger.passthrough
    &&& emission.console is Some ==> emission.console.unwrap()@ == passthrough_text(
        level,
        message,
        err,
    )
}

/// The configured front of the pipeline: it turns log calls into entries.
/// Its configuration never changes after construction.
#[derive(Debug, Clone)]
pub struct Logger {
    name: String,
    endpoint: String,
    token: String,
    passthrough: bool,
    noop: bool,
}

impl View for Logger {
    type V = LoggerView;

    closed spec fn view(&self) -> LoggerView {
        LoggerView {
            name: self.name@,
            url: self.endpoint@,
            token: self.token@,
            passthrough: self.passthrough,
            noop: self.noop,
        }
    }
}

/// Reads the clock through `chrono::Utc::now` and writes the instant with
/// `DateTime::to_rfc3339`. The text depends on the moment of the call, so
/// nothing is claimed of it. `Utc::now` panics on a machine whose clock
/// stands before 1970.
#[verifier::external_body]
fn current_timestamp_rfc3339() -> (timestamp: String) {
    chrono::Utc::now().to_rfc3339()
}

impl Logger {
    pub fn new(
        name: &str,
        endpoint: &str,
        token: &str,
        passthrough: bool,
        insecure: bool,
        noop: bool,
    ) -> (logger: Self)
        ensures
            logger@ == (LoggerView {
                name: name@,
                url: endpoint_url(endpoint@, insecure),
                token: token@,
                passthrough,
                noop,
            }),
    {
        Logger {
            name: name.to_owned(),
            endpoint: format_endpoint(endpoint, insecure),
            token: token.to_owned(),
            passthrough,
            noop,
        }
    }

    /// The service name that every entry carries.
    pub fn name(&self) -> (r: &str)
        ensures
            r@ == self@.name,
    {
        self.name.as_str()
    }

    /// The full address that batches are posted to.
    pub fn endpoint(&self) -> (r: &str)
        ensures
            r@ == self@.url,
    {
        self.endpoint.as_str()
    }

    /// The token that every batch carries.
    pub fn token(&self) -> (r: &str)
        ensures
            r@ == self@.token,
    {
        self.token.as_str()
    }

    pub fn passthrough(&self) -> (r: bool)
        ensures
            r == self@.passthrough,
    {
        self.passthrough
    }

    pub fn noop(&self) -> (r: bool)
        ensures
            r == self@.noop,
    {
        self.noop
    }

    /// Shutdown through this handle, on the state that all handles share:
    /// stop is signalled, and the worker is waited for by the first call only.
    pub fn shutdown(&self, lifecycle: &mut Lifecycle) -> (action: ShutdownAction)
        ensures
            *final(lifecycle) == old(lifecycle).shutdown_state(),
            action == old(lifecycle).shutdown_action(),
    {
        lifecycle.shutdown()
    }

    /// One log call at a given instant. A noop logger gives nothing: no
    /// entry and no console line. Any other gives the entry, with the
    /// attributes merged, and the console line if passthrough is on.
    pub fn emit(
        &self,
        level: LogLevel,
        message: &str,
        err: Option<&str>,
        attrs: Vec<Attribute>,
        timestamp: String,
    ) -> (out: Option<Emission>)
        ensures
            self@.noop ==> out is None,
            !self@.noop ==> out is Some && emission_matches(
                out.unwrap(),
                self@,
                level,
                message@,
                text_view(err),
                pairs(attrs@),
                timestamp@,
            ),
    {
        if self.noop {
            return None;
        }
        let mut merged: Vec<Attribute> = Vec::new();
        let ghost base = Map::<Seq<char>, Seq<char>>::empty().insert("service.name"@, self.name@);
        set_attribute(&mut merged, Attribute::new("service.name", self.name.as_str()));
        let mut i: usize = 0;
        while i < attrs.len()
            invariant
                i <= attrs.len(),
                distinct_keys(merged@),
                attribute_map(merged@) == merge_attributes(base, pairs(attrs@).take(i as int)),
            decreases attrs.len() - i,
        {
            let attr = Attribute { key: attrs[i].key.clone(), value: attrs[i].value.clone() };
            proof {
                assert(pairs(attrs@).take(i + 1).drop_last() =~= pairs(attrs@).take(i as int));
            }
            set_attribute(&mut merged, attr);
            i += 1;
        }
        proof {
            assert(pairs(attrs@).take(i as int) =~= pairs(attrs@));
        }
        if let Some(detail) = err {
            set_attribute(&mut merged, Attribute::new("error", detail));
        }
        let console = if self.passthrough {
            Some(passthrough_line(level, message, err))
        } else {
            None
        };
        let entry = LogMessage { timestamp, body: message.to_owned(), level, attributes: merged };
        Some(Emission { entry, console })
    }

    /// One log call now: `emit` at the instant that the clock shows.
    pub fn log(&self, level: LogLevel, message: &str, err: Option<&str>, attrs: Vec<Attribute>) -> (out:
        Option<Emission>)
        ensures
            self@.noop ==> out is None,
            !self@.noop ==> out is Some && emission_matches(
                out.unwrap(),
                self@,
                level,
                message@,
                text_view(err),
                pairs(attrs@),
                out.unwrap().entry.timestamp@,
            ),
    {
        if self.noop {
            return None;
        }
        self.emit(level, message, err, attrs, current_timestamp_rfc3339())
    }

    pub fn debug(&self, message: &str) -> (out: Option<Emission>)
        ensures
            self@.noop ==> out is None,
            !self@.noop ==> out is Some && emission_matches(
                out.unwrap(),
                self@,
                LogLevel::DEBUG,
                message@,
                None,
                Seq::empty(),
                out.unwrap().entry.timestamp@,
            ),
    {
        self.log(LogLevel::DEBUG, message, None, Vec::new())
    }

    pub fn warn(&self, message: &str) -> (out: Option<Emission>)
        ensures
            self@.noop ==> out is None,
            !self@.noop ==> out is Some && emission_matches(
                out.unwrap(),
                self@,
                LogLevel::WARNING,
                message@,
                None,
                Seq::empty(),
                out.unwrap().entry.timestamp@,
            ),
    {
        self.log(LogLevel::WARNING, message, None, Vec::new())
    }

    pub fn info(&self, message: &str) -> (out: Option<Emission>)
        ensures
            self@.noop ==> out is None,
            !self@.noop ==> out is Some && emission_matches(
                out.unwrap(),
                self@,
                LogLevel::INFO,
                message@,
                None,
                Seq::empty(),
                out.unwrap().entry.timestamp@,
            ),
    {
        self.log(LogLevel::INFO, message, None, Vec::new())
    }

    pub fn error(&self, message: &str) -> (out: Option<Emission>)
        ensures
            self@.noop ==> out is None,
            !self@.noop ==> out is Some && emission_matches(
                out.unwrap(),
                self@,
                LogLevel::ERROR,
                message@,
                None,
                Seq::empty(),
                out.unwrap().entry.timestamp@,
            ),
    {
        self.log(LogLevel::ERROR, message, None, Vec::new())
    }

    pub fn debug_with_attrs(&self, message: &str, attrs: Vec<Attribute>) -> (out: Option<Emission>)
        ensures
            self@.noop ==> out is None,
            !self@.noop ==> out is Some && emission_matches(
                out.unwrap(),
                self@,
                LogLevel::DEBUG,
                message@,
                None,
                pairs(attrs@),
                out.unwrap().entry.timestamp@,
            ),
    {
        self.log(LogLevel::DEBUG, message, None, attrs)
    }

    pub fn warn_with_attrs(&self, message: &str, attrs: Vec<Attribute>) -> (out: Option<Emission>)
        ensures
            self@.noop ==> out is None,
            !self@.noop ==> out is Some && emission_matches(
                out.unwrap(),
                self@,
                LogLevel::WARNING,
                message@,
                None,
                pairs(attrs@),
                out.unwrap().entry.timestamp@,
            ),
    {
        self.log(LogLevel::WARNING, message, None, attrs)
    }

    pub fn info_with_attrs(&self, message: &str, attrs: Vec<Attribute>) -> (out: Option<Emission>)
        ensures
            self@.noop ==> out is None,
            !self@.noop ==> out is Some && emission_matches(
                out.unwrap(),
                self@,
                LogLevel::INFO,
                message@,
                None,
                pairs(attrs@),
                out.unwrap().entry.timestamp@,
            ),
    {
        self.log(LogLevel::INFO, message, None, attrs)
    }

    pub fn error_with_attrs(&self, message: &str, attrs: Vec<Attribute>) -> (out: Option<Emission>)
        ensures
            self@.noop ==> out is None,
            !self@.noop ==> out is Some && emission_matches(
                out.unwrap(),
                self@,
                LogLevel::ERROR,
                message@,
                None,
                pairs(attrs@),
                out.unwrap().entry.timestamp@,
            ),
    {
        self.log(LogLevel::ERROR, message, None, attrs)
    }
}

/// What a call of shutdown has to do next.
#[derive(Debug, Clone, Copy, PartialEq, Eq, Structural)]
pub enum ShutdownAction {
    /// Wait for the worker to drain and exit.
    Join,
    /// The worker was already waited for: nothing is left to do.
    Nothing,
}

/// The state that all handles of one logger share: whether stop was
/// signalled, and whether the worker has still to be waited for.
#[derive(Debug, Clone, Copy, PartialEq, Eq, Structural)]
pub struct Lifecycle {
    pub stop_signal: bool,
    pub worker_attached: bool,
}

impl Lifecycle {
    /// The state right after the worker was started.
    pub fn new() -> (l: Self)
        ensures
            l == (Lifecycle { stop_signal: false, worker_attached: true }),
    {
        Lifecycle { stop_signal: false, worker_attached: true }
    }

    /// The state after a call of shutdown.
    pub open spec fn shutdown_state(self) -> Lifecycle {
        Lifecycle { stop_signal: true, worker_attached: false }
    }

    /// The action that a call of shutdown asks for.
    pub open spec fn shutdown_action(self) -> ShutdownAction {
        if self.worker_attached {
            ShutdownAction::Join
        } else {
            ShutdownAction::Nothing
        }
    }

    /// Signals stop and says whether the worker has to be waited for: the
    /// first call does, every later one has nothing left to do.
    pub fn shutdown(&mut self) -> (action: ShutdownAction)
        ensures
            *final(self) == old(self).shutdown_state(),
            action == old(self).shutdown_action(),
    {
        let action = if self.worker_attached {
            ShutdownAction::Join
        } else {
            ShutdownAction::Nothing
        };
        self.stop_signal = true;
        self.worker_attached = false;
        action
    }
}

/// Shutdown is idempotent: after one call, from whatever state, a further
/// call asks for nothing and changes nothing.
pub proof fn lemma_shutdown_idempotent(l: Lifecycle)
    ensures
        l.shutdown_state().shutdown_action() == ShutdownAction::Nothing,
        l.shutdown_state().shutdown_state() == l.shutdown_state(),
{
}

} // verus!
