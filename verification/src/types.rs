use vstd::prelude::*;

verus! {

/// Severity of a log entry.
#[derive(Debug, Clone, Copy, PartialEq, Eq, Structural)]
pub enum LogLevel {
    INFO,
    WARNING,
    ERROR,
    DEBUG,
}

impl LogLevel {
    /// The name of the level as it is written on the wire and on the console.
    pub open spec fn name_spec(self) -> Seq<char> {
        match self {
            LogLevel::INFO => "INFO"@,
            LogLevel::WARNING => "WARNING"@,
            LogLevel::ERROR => "ERROR"@,
            LogLevel::DEBUG => "DEBUG"@,
        }
    }

    pub fn name(&self) -> (r: &'static str)
        ensures
            r@ == self.name_spec(),
    {
        match self {
            LogLevel::INFO => "INFO",
            LogLevel::WARNING => "WARNING",
            LogLevel::ERROR => "ERROR",
            LogLevel::DEBUG => "DEBUG",
        }
    }
}

/// One key/value pair attached to a log entry.
#[derive(Debug, Clone)]
pub struct Attribute {
    pub key: String,
    pub value: String,
}

impl View for Attribute {
    type V = (Seq<char>, Seq<char>);

    open spec fn view(&self) -> (Seq<char>, Seq<char>) {
        (self.key@, self.value@)
    }
}

impl Attribute {
    pub fn new(key: &str, value: &str) -> (a: Self)
        ensures
            a@ == (key@, value@),
    {
        Self { key: key.to_owned(), value: value.to_owned() }
    }
}

/// The pairs of texts that a list of attributes holds, in order.
pub open spec fn pairs(attrs: Seq<Attribute>) -> Seq<(Seq<char>, Seq<char>)> {
    attrs.map_values(|a: Attribute| a@)
}

/// The mapping that a list of attributes stands for: later pairs overwrite
/// earlier ones with the same key.
pub open spec fn attribute_map(attrs: Seq<Attribute>) -> Map<Seq<char>, Seq<char>>
    decreases attrs.len(),
{
    if attrs.len() == 0 {
        Map::empty()
    } else {
        attribute_map(attrs.drop_last()).insert(attrs.last().key@, attrs.last().value@)
    }
}

/// No key occurs twice in the list.
pub open spec fn distinct_keys(attrs: Seq<Attribute>) -> bool {
    forall|i: int, j: int| 0 <= i < j < attrs.len() ==> attrs[i].key@ != attrs[j].key@
}

/// Every key of the mapping occurs in the list.
pub proof fn lemma_attribute_map_keys(attrs: Seq<Attribute>, key: Seq<char>)
    requires
        attribute_map(attrs).dom().contains(key),
    ensures
        exists|i: int| 0 <= i < attrs.len() && attrs[i].key@ == key,
    decreases attrs.len(),
{
    if attrs.len() > 0 {
        if attrs.last().key@ == key {
            assert(attrs[attrs.len() - 1].key@ == key);
        } else {
            lemma_attribute_map_keys(attrs.drop_last(), key);
            let i = choose|i: int| 0 <= i < attrs.drop_last().len() && attrs.drop_last()[i].key@ == key;
            assert(attrs[i].key@ == key);
        }
    }
}

/// A key that occurs nowhere in the list is no key of the mapping.
pub proof fn lemma_attribute_map_absent(attrs: Seq<Attribute>, key: Seq<char>)
    requires
        forall|i: int| 0 <= i < attrs.len() ==> attrs[i].key@ != key,
    ensures
        !attribute_map(attrs).dom().contains(key),
{
    if attribute_map(attrs).dom().contains(key) {
        lemma_attribute_map_keys(attrs, key);
    }
}

/// Replacing the pair at the last place where a key stands is an insert of
/// that key into the mapping.
pub proof fn lemma_attribute_map_update(attrs: Seq<Attribute>, i: int, attr: Attribute)
    requires
        0 <= i < attrs.len(),
        attrs[i].key@ == attr.key@,
        forall|j: int| i < j < attrs.len() ==> attrs[j].key@ != attr.key@,
    ensures
        distinct_keys(attrs) ==> distinct_keys(attrs.update(i, attr)),
        attribute_map(attrs.update(i, attr)) == attribute_map(attrs).insert(attr.key@, attr.value@),
    decreases attrs.len(),
{
    let updated = attrs.update(i, attr);
    let front = attrs.drop_last();
    if i == attrs.len() - 1 {
        assert(updated.drop_last() =~= front);
        assert(attribute_map(updated) =~= attribute_map(attrs).insert(attr.key@, attr.value@));
    } else {
        lemma_attribute_map_update(front, i, attr);
        assert(updated.drop_last() =~= front.update(i, attr));
        assert(updated.last() == attrs.last());
        assert(attrs[attrs.len() - 1].key@ != attr.key@);
        assert(attribute_map(updated) =~= attribute_map(attrs).insert(attr.key@, attr.value@));
    }
}

/// Adding a pair at the end is an insert into the mapping.
pub proof fn lemma_attribute_map_push(attrs: Seq<Attribute>, attr: Attribute)
    ensures
        attribute_map(attrs.push(attr)) == attribute_map(attrs).insert(attr.key@, attr.value@),
{
    assert(attrs.push(attr).drop_last() =~= attrs);
}

/// Sets `attr.key` to `attr.value` in the list: the pair replaces the last
/// one with its key, and is added at the end where no pair has it.
pub fn set_attribute(attrs: &mut Vec<Attribute>, attr: Attribute)
    ensures
        attribute_map(final(attrs)@) == attribute_map(old(attrs)@).insert(attr.key@, attr.value@),
        distinct_keys(old(attrs)@) ==> distinct_keys(final(attrs)@),
        final(attrs)@.len() == old(attrs)@.len() + (if attribute_map(old(attrs)@).dom().contains(
            attr.key@,
        ) {
            0int
        } else {
            1int
        }),
{
    let mut i: usize = attrs.len();
    while i > 0
        invariant
            i <= attrs.len(),
            attrs@ == old(attrs)@,
            forall|j: int| i <= j < attrs.len() ==> attrs@[j].key@ != attr.key@,
        decreases i,
    {
        i -= 1;
        if attrs[i].key == attr.key {
            proof {
                lemma_attribute_map_update(attrs@, i as int, attr);
                lemma_attribute_map_present(attrs@, i as int);
            }
            attrs.set(i, attr);
            return ;
        }
    }
    proof {
        lemma_attribute_map_push(attrs@, attr);
        lemma_attribute_map_absent(attrs@, attr.key@);
    }
    attrs.push(attr);
}

/// A key that stands in the list is a key of the mapping.
pub proof fn lemma_attribute_map_present(attrs: Seq<Attribute>, i: int)
    requires
        0 <= i < attrs.len(),
    ensures
        attribute_map(attrs).dom().contains(attrs[i].key@),
    decreases attrs.len(),
{
    if i < attrs.len() - 1 {
        lemma_attribute_map_present(attrs.drop_last(), i);
    }
}

/// Looks a key up in the mapping that the list stands for.
pub fn find_attribute(attrs: &Vec<Attribute>, key: &str) -> (r: Option<String>)
    ensures
        r is Some <==> attribute_map(attrs@).dom().contains(key@),
        r is Some ==> r.unwrap()@ == attribute_map(attrs@)[key@],
{
    let wanted = key.to_owned();
    let mut i: usize = attrs.len();
    proof {
        assert(attrs@.take(i as int) =~= attrs@);
    }
    while i > 0
        invariant
            i <= attrs.len(),
            wanted@ == key@,
            attribute_map(attrs@).dom().contains(key@) == attribute_map(
                attrs@.take(i as int),
            ).dom().contains(key@),
            attribute_map(attrs@).dom().contains(key@) ==> attribute_map(attrs@)[key@]
                == attribute_map(attrs@.take(i as int))[key@],
        decreases i,
    {
        proof {
            assert(attrs@.take(i as int).drop_last() =~= attrs@.take(i - 1));
        }
        i -= 1;
        if attrs[i].key == wanted {
            return Some(attrs[i].value.clone());
        }
    }
    proof {
        assert(attrs@.take(0) =~= Seq::<Attribute>::empty());
    }
    None
}

/// One structured log record.
#[derive(Debug)]
pub struct LogMessage {
    pub timestamp: String,
    pub body: String,
    pub level: LogLevel,
    pub attributes: Vec<Attribute>,
}

/// What a log record says: its texts, its level and its attribute mapping.
pub ghost struct LogMessageView {
    pub timestamp: Seq<char>,
    pub body: Seq<char>,
    pub level: LogLevel,
    pub attributes: Map<Seq<char>, Seq<char>>,
}

impl View for LogMessage {
    type V = LogMessageView;

    open spec fn view(&self) -> LogMessageView {
        LogMessageView {
            timestamp: self.timestamp@,
            body: self.body@,
            level: self.level,
            attributes: attribute_map(self.attributes@),
        }
    }
}

impl LogMessage {
    /// The record lists each attribute key once.
    pub open spec fn wf(&self) -> bool {
        distinct_keys(self.attributes@)
    }

    /// The value of one attribute, if the record has it.
    pub fn attribute(&self, key: &str) -> (r: Option<String>)
        ensures
            r is Some <==> self@.attributes.dom().contains(key@),
            r is Some ==> r.unwrap()@ == self@.attributes[key@],
    {
        find_attribute(&self.attributes, key)
    }
}

/// The kind of payload a batch carries.
#[derive(Debug, Clone, Copy, PartialEq, Eq, Structural)]
pub enum MessageType {
    Logs,
}

impl MessageType {
    pub open spec fn tag_spec(self) -> Seq<char> {
        "logs"@
    }

    /// The tag under which the payload kind is written on the wire.
    pub fn tag(&self) -> (r: &'static str)
        ensures
            r@ == self.tag_spec(),
    {
        "logs"
    }
}

/// The entries of one flush, with the token of their destination.
#[derive(Debug)]
pub struct MessageBatch {
    pub token: String,
    pub msg_type: MessageType,
    pub logs: Vec<LogMessage>,
}

} // verus!
