//! A leveled logger for command-line tools.
//!
//! The logger is a plain value: it decides whether a message is shown, under
//! which level, and what the finished line looks like. Writing the line to the
//! sink is left to the caller.

use vstd::prelude::*;
use vstd::string::*;

verus! {

/// Severity of a message.
#[derive(Clone, Copy, Debug)]
pub enum BogLevel {
    NOTE,
    ERROR,
    WARN,
    INFO,
    DEBUG,
    DNOTE,
    /// Lowest priority; as a threshold it lets everything through.
    ALL,
    CUSTOM(&'static str),
}

/// The priority that levels have unless a formatter says otherwise.
pub open spec fn level_priority(level: BogLevel) -> u8 {
    match level {
        BogLevel::NOTE => 120,
        BogLevel::ERROR => 100,
        BogLevel::WARN => 80,
        BogLevel::INFO => 60,
        BogLevel::DEBUG => 40,
        BogLevel::DNOTE => 20,
        BogLevel::ALL => 0,
        BogLevel::CUSTOM(_) => 120,
    }
}

/// A tag is appended to the opening of a line after `sep`, and left out when
/// it is empty.
pub open spec fn with_tag(head: Seq<char>, sep: Seq<char>, tag: Seq<char>) -> Seq<char> {
    if tag.len() == 0 {
        head
    } else {
        head + sep + tag
    }
}

/// A message follows the closed tag after one space, and is left out when it
/// is empty.
pub open spec fn with_msg(head: Seq<char>, msg: Seq<char>) -> Seq<char> {
    if msg.len() == 0 {
        head
    } else {
        head + seq![' '] + msg
    }
}

/// How a line is dressed: the opening and closing of its tag, the way a tag is
/// attached, and the priority of each level.
///
/// Every method has a spec counterpart that says what it returns, so that code
/// holding any formatter can state what it prints. A formatter says what its
/// methods return by giving the counterparts a body; left as they are, they
/// say nothing.
pub trait BogFmter {
    open spec fn begin_tag_spec(&self, level: BogLevel) -> Seq<char> {
        arbitrary()
    }

    fn begin_tag(&self, level: BogLevel) -> (s: String)
        ensures
            s@ == self.begin_tag_spec(level),
    ;

    open spec fn end_tag_spec(&self) -> Seq<char> {
        arbitrary()
    }

    fn end_tag(&self) -> (s: &'static str)
        ensures
            s@ == self.end_tag_spec(),
    ;

    open spec fn push_tag_spec(&self, head: Seq<char>, tag: Seq<char>) -> Seq<char> {
        arbitrary()
    }

    fn push_tag(&self, s: &mut String, tag: &str)
        ensures
            final(s)@ == self.push_tag_spec(old(s)@, tag@),
    ;

    open spec fn format_spec(&self, level: BogLevel, tag: Seq<char>, msg: Seq<char>) -> Seq<char> {
        arbitrary()
    }

    fn format(&self, level: BogLevel, tag: &str, msg: &str) -> (s: String)
        ensures
            s@ == self.format_spec(level, tag@, msg@),
    ;

    open spec fn priority_spec(&self, level: BogLevel) -> u8 {
        arbitrary()
    }

    fn priority(&self, level: &BogLevel) -> (r: u8)
        ensures
            r == self.priority_spec(*level),
    ;
}

/// The usual closing of a tag: the reset sequence alone.
pub fn default_end_tag() -> (s: &'static str)
    ensures
        s@ == "\x1b[0m"@,
{
    "\x1b[0m"
}

/// The usual way to attach a tag: after a colon and a space.
pub fn default_push_tag(s: &mut String, tag: &str)
    ensures
        final(s)@ == with_tag(old(s)@, ": "@, tag@),
{
    if !tag.is_empty() {
        s.append(": ");
        s.append(tag);
    }
}

/// The usual line: the opening with its tag, the closing, then the message.
pub open spec fn default_format_spec(head: Seq<char>, end: Seq<char>, msg: Seq<char>) -> Seq<char> {
    with_msg(head + end, msg)
}

/// The usual way to finish a line whose opening and tag are in `head`.
pub fn default_format(head: String, end: &str, msg: &str) -> (s: String)
    ensures
        s@ == default_format_spec(head@, end@, msg@),
{
    let mut s = head;
    s.append(end);
    if !msg.is_empty() {
        proof {
            reveal_strlit(" ");
        }
        s.append(" ");
        s.append(msg);
    }
    s
}

/// The usual priority of a level.
pub fn default_priority(level: &BogLevel) -> (r: u8)
    ensures
        r == level_priority(*level),
{
    match level {
        BogLevel::NOTE => 120,
        BogLevel::ERROR => 100,
        BogLevel::WARN => 80,
        BogLevel::INFO => 60,
        BogLevel::DEBUG => 40,
        BogLevel::DNOTE => 20,
        BogLevel::ALL => 0,
        BogLevel::CUSTOM(_) => 120,
    }
}

/// Colours the text of the tag and puts it in square brackets.
pub struct Fg {}

/// Black text on a coloured background, the tag padded to five columns.
pub struct Bg {}

/// The colour digits that `Fg` uses for a level.
pub open spec fn fg_code(level: BogLevel) -> Seq<char> {
    match level {
        BogLevel::NOTE => "34"@,
        BogLevel::ERROR => "31"@,
        BogLevel::WARN => "33"@,
        BogLevel::INFO => "32"@,
        BogLevel::DEBUG => "35"@,
        BogLevel::DNOTE => "30"@,
        BogLevel::ALL => ""@,
        BogLevel::CUSTOM(_) => "34"@,
    }
}

/// The four-letter name that `Fg` prints for a level; a custom level prints
/// its own name.
pub open spec fn fg_name(level: BogLevel) -> Seq<char> {
    match level {
        BogLevel::NOTE => "NOTE"@,
        BogLevel::ERROR => "ERRO"@,
        BogLevel::WARN => "WARN"@,
        BogLevel::INFO => "INFO"@,
        BogLevel::DEBUG => "DBUG"@,
        BogLevel::DNOTE => "DNTE"@,
        BogLevel::ALL => ""@,
        BogLevel::CUSTOM(name) => name@,
    }
}

/// The colour digits that `Bg` uses for a level.
pub open spec fn bg_code(level: BogLevel) -> Seq<char> {
    match level {
        BogLevel::NOTE => "44"@,
        BogLevel::ERROR => "41"@,
        BogLevel::WARN => "43"@,
        BogLevel::INFO => "42"@,
        BogLevel::DEBUG => "45"@,
        BogLevel::DNOTE => "47"@,
        BogLevel::ALL => ""@,
        BogLevel::CUSTOM(_) => "44"@,
    }
}

/// The padded name that `Bg` prints for a level; a custom level prints its
/// own name as it is.
pub open spec fn bg_name(level: BogLevel) -> Seq<char> {
    match level {
        BogLevel::NOTE => "NOTE "@,
        BogLevel::ERROR => "ERROR"@,
        BogLevel::WARN => "WARN "@,
        BogLevel::INFO => "INFO "@,
        BogLevel::DEBUG => "DEBUG"@,
        BogLevel::DNOTE => "DNOTE"@,
        BogLevel::ALL => ""@,
        BogLevel::CUSTOM(name) => name@,
    }
}

impl BogFmter for Fg {
    open spec fn begin_tag_spec(&self, level: BogLevel) -> Seq<char> {
        "\x1b["@ + fg_code(level) + "m["@ + fg_name(level)
    }

    fn begin_tag(&self, level: BogLevel) -> (s: String) {
        let (code, name) = match level {
            BogLevel::NOTE => ("34", "NOTE"),
            BogLevel::ERROR => ("31", "ERRO"),
            BogLevel::WARN => ("33", "WARN"),
            BogLevel::INFO => ("32", "INFO"),
            BogLevel::DEBUG => ("35", "DBUG"),
            BogLevel::DNOTE => ("30", "DNTE"),
            BogLevel::ALL => ("", ""),
            BogLevel::CUSTOM(name) => ("34", name),
        };
        let mut s = "\x1b[".to_owned();
        s.append(code);
        s.append("m[");
        s.append(name);
        s
    }

    open spec fn end_tag_spec(&self) -> Seq<char> {
        "]\x1b[0m"@
    }

    fn end_tag(&self) -> (s: &'static str) {
        "]\x1b[0m"
    }

    open spec fn push_tag_spec(&self, head: Seq<char>, tag: Seq<char>) -> Seq<char> {
        with_tag(head, ": "@, tag)
    }

    fn push_tag(&self, s: &mut String, tag: &str) {
        default_push_tag(s, tag)
    }

    open spec fn format_spec(&self, level: BogLevel, tag: Seq<char>, msg: Seq<char>) -> Seq<char> {
        default_format_spec(
            self.push_tag_spec(self.begin_tag_spec(level), tag),
            self.end_tag_spec(),
            msg,
        )
    }

    fn format(&self, level: BogLevel, tag: &str, msg: &str) -> (s: String) {
        let mut head = self.begin_tag(level);
        self.push_tag(&mut head, tag);
        default_format(head, self.end_tag(), msg)
    }

    open spec fn priority_spec(&self, level: BogLevel) -> u8 {
        level_priority(level)
    }

    fn priority(&self, level: &BogLevel) -> (r: u8) {
        default_priority(level)
    }
}

impl BogFmter for Bg {
    open spec fn begin_tag_spec(&self, level: BogLevel) -> Seq<char> {
        "\x1b[30;"@ + bg_code(level) + "m"@ + bg_name(level)
    }

    fn begin_tag(&self, level: BogLevel) -> (s: String) {
        let (code, name) = match level {
            BogLevel::NOTE => ("44", "NOTE "),
            BogLevel::ERROR => ("41", "ERROR"),
            BogLevel::WARN => ("43", "WARN "),
            BogLevel::INFO => ("42", "INFO "),
            BogLevel::DEBUG => ("45", "DEBUG"),
            BogLevel::DNOTE => ("47", "DNOTE"),
            BogLevel::ALL => ("", ""),
            BogLevel::CUSTOM(name) => ("44", name),
        };
        let mut s = "\x1b[30;".to_owned();
        s.append(code);
        s.append("m");
        s.append(name);
        s
    }

    open spec fn end_tag_spec(&self) -> Seq<char> {
        " \x1b[0m"@
    }

    fn end_tag(&self) -> (s: &'static str) {
        " \x1b[0m"
    }

    open spec fn push_tag_spec(&self, head: Seq<char>, tag: Seq<char>) -> Seq<char> {
        with_tag(head, "| "@, tag)
    }

    fn push_tag(&self, s: &mut String, tag: &str) {
        if !tag.is_empty() {
            s.append("| ");
            s.append(tag);
        }
    }

    open spec fn format_spec(&self, level: BogLevel, tag: Seq<char>, msg: Seq<char>) -> Seq<char> {
        default_format_spec(
            self.push_tag_spec(self.begin_tag_spec(level), tag),
            self.end_tag_spec(),
            msg,
        )
    }

    fn format(&self, level: BogLevel, tag: &str, msg: &str) -> (s: String) {
        let mut head = self.begin_tag(level);
        self.push_tag(&mut head, tag);
        default_format(head, self.end_tag(), msg)
    }

    open spec fn priority_spec(&self, level: BogLevel) -> u8 {
        level_priority(level)
    }

    fn priority(&self, level: &BogLevel) -> (r: u8) {
        default_priority(level)
    }
}

/// Where the finished lines are meant to go.
#[derive(Clone, Copy, Debug, PartialEq, Eq, Structural)]
pub enum BogSink {
    Stdout,
    Stderr,
}

/// What a logger is set to, as plain values.
pub ghost struct BogSettings {
    /// Messages with a priority below the first component are dropped; the
    /// second is the level that the threshold was set from.
    pub min_level: (u8, BogLevel),
    /// Messages with a priority above the first component are shown under the
    /// level in the second.
    pub downcast_to: (u8, BogLevel),
    pub prefix: Seq<char>,
    pub suffix: Seq<char>,
    pub tag_override: Option<Seq<char>>,
}

/// The settings of a logger that was just made: every message is shown under
/// its own level, and lines get no prefix, suffix or tag of the logger's.
pub open spec fn initial_settings() -> BogSettings {
    BogSettings {
        min_level: (0, BogLevel::DEBUG),
        downcast_to: (255, BogLevel::ERROR),
        prefix: Seq::empty(),
        suffix: Seq::empty(),
        tag_override: None,
    }
}

/// The view of an optional string.
pub open spec fn opt_text(s: Option<String>) -> Option<Seq<char>> {
    match s {
        Some(s) => Some(s@),
        None => None,
    }
}

/// The state of the one logger of a process: a formatter, a sink, two bounds
/// on priority, and the prefix, suffix and tag that lines get.
#[allow(non_camel_case_types)]
pub struct GLOBAL_BOGGER_STRUCT<F: BogFmter> {
    formatter: F,
    sink: BogSink,
    min_level: (u8, BogLevel),
    downcast_to: (u8, BogLevel),
    prefix: String,
    suffix: String,
    tag_override: Option<String>,
}

impl<F: BogFmter> View for GLOBAL_BOGGER_STRUCT<F> {
    type V = BogSettings;

    closed spec fn view(&self) -> BogSettings {
        BogSettings {
            min_level: self.min_level,
            downcast_to: self.downcast_to,
            prefix: self.prefix@,
            suffix: self.suffix@,
            tag_override: opt_text(self.tag_override),
        }
    }
}

/// The line that a logger with these settings and this formatter gives for a
/// message, or `None` where the message is dropped.
pub open spec fn emitted<F: BogFmter>(
    fmter: F,
    settings: BogSettings,
    level: BogLevel,
    tag: Seq<char>,
    msg: Seq<char>,
) -> Option<Seq<char>> {
    let pri = fmter.priority_spec(level);
    if pri < settings.min_level.0 {
        None
    } else {
        let shown = if pri > settings.downcast_to.0 {
            settings.downcast_to.1
        } else {
            level
        };
        let tag = match settings.tag_override {
            Some(t) => t,
            None => tag,
        };
        Some(fmter.format_spec(shown, tag, settings.prefix + msg) + settings.suffix + seq!['\n'])
    }
}

impl<F: BogFmter> GLOBAL_BOGGER_STRUCT<F> {
    /// The formatter that the logger was made with.
    pub closed spec fn fmter(&self) -> F {
        self.formatter
    }

    /// The sink that the logger was made for.
    pub closed spec fn sink_spec(&self) -> BogSink {
        self.sink
    }

    /// A logger that shows every message under its own level, with no prefix,
    /// suffix or tag of its own.
    pub fn new(formatter: F, sink: BogSink) -> (r: Self)
        ensures
            r.fmter() == formatter,
            r.sink_spec() == sink,
            r@ == initial_settings(),
    {
        GLOBAL_BOGGER_STRUCT {
            formatter,
            sink,
            downcast_to: (255, BogLevel::ERROR),
            min_level: (0, BogLevel::DEBUG),
            prefix: String::new(),
            suffix: String::new(),
            tag_override: None,
        }
    }

    /// Puts a fresh logger into `slot`, replacing what was there.
    pub fn init_global(
        slot: &mut Option<GLOBAL_BOGGER_STRUCT<F>>,
        formatter: F,
        sink: BogSink,
    )
        ensures
            *final(slot) matches Some(b) && b.fmter() == formatter && b.sink_spec() == sink && b@
                == initial_settings(),
    {
        *slot = Some(GLOBAL_BOGGER_STRUCT::new(formatter, sink));
    }

    /// The sink that the logger was made for.
    pub fn sink(&self) -> (r: BogSink)
        ensures
            r == self.sink_spec(),
    {
        self.sink
    }

    /// The line to write for a message, or `None` where the message is below
    /// the threshold. A message above the ceiling is shown under the
    /// ceiling's level; the tag override, the prefix and the suffix apply.
    pub fn bog(&self, level: BogLevel, tag: &str, msg: &str) -> (line: Option<String>)
        ensures
            opt_text(line) == emitted(self.fmter(), self@, level, tag@, msg@),
    {
        let mut level = level;
        let pri = self.formatter.priority(&level);
        if pri < self.min_level.0 {
            return None;
        }
        if pri > self.downcast_to.0 {
            level = self.downcast_to.1;
        }
        let effective_tag = match &self.tag_override {
            Some(t) => t.as_str(),
            None => tag,
        };
        let mut formatted = if !self.prefix.as_str().is_empty() {
            let mut prefixed_msg = self.prefix.clone();
            prefixed_msg.append(msg);
            self.formatter.format(level, effective_tag, prefixed_msg.as_str())
        } else {
            assert(self.prefix@ + msg@ =~= msg@);
            self.formatter.format(level, effective_tag, msg)
        };
        if !self.suffix.as_str().is_empty() {
            formatted.append(self.suffix.as_str());
        }
        proof {
            reveal_strlit("\n");
            assert(formatted@ =~= self.fmter().format_spec(level, effective_tag@, self@.prefix + msg@)
                + self@.suffix);
        }
        formatted.append("\n");
        Some(formatted)
    }

    /// The text that is put before every message.
    pub fn prefix(&self) -> (r: &String)
        ensures
            r@ == self@.prefix,
    {
        &self.prefix
    }

    /// The text that is put at the end of every line.
    pub fn suffix(&self) -> (r: &String)
        ensures
            r@ == self@.suffix,
    {
        &self.suffix
    }

    /// The tag that replaces the tag of every message, if one is set.
    pub fn tag_override(&self) -> (r: &Option<String>)
        ensures
            opt_text(*r) == self@.tag_override,
    {
        &self.tag_override
    }

    /// Sets the text that is put before every message.
    pub fn set_prefix(&mut self, prefix: String)
        ensures
            final(self).fmter() == old(self).fmter(),
            final(self).sink_spec() == old(self).sink_spec(),
            final(self)@ == (BogSettings { prefix: prefix@, ..old(self)@ }),
    {
        self.prefix = prefix;
    }

    /// Sets the text that is put at the end of every line.
    pub fn set_suffix(&mut self, suffix: String)
        ensures
            final(self).fmter() == old(self).fmter(),
            final(self).sink_spec() == old(self).sink_spec(),
            final(self)@ == (BogSettings { suffix: suffix@, ..old(self)@ }),
    {
        self.suffix = suffix;
    }

    /// Sets or clears the tag that replaces the tag of every message.
    pub fn set_tag_override(&mut self, tag: Option<String>)
        ensures
            final(self).fmter() == old(self).fmter(),
            final(self).sink_spec() == old(self).sink_spec(),
            final(self)@ == (BogSettings { tag_override: opt_text(tag), ..old(self)@ }),
    {
        self.tag_override = tag;
    }

    /// Raises the threshold to 255, so that every message with a lower
    /// priority is dropped.
    pub fn pause(&mut self)
        ensures
            final(self).fmter() == old(self).fmter(),
            final(self).sink_spec() == old(self).sink_spec(),
            final(self)@ == (BogSettings {
                min_level: (255, old(self)@.min_level.1),
                ..old(self)@
            }),
    {
        self.min_level.0 = u8::MAX;
    }

    /// Sets the threshold back to the priority of the level it was set from.
    pub fn resume(&mut self)
        ensures
            final(self).fmter() == old(self).fmter(),
            final(self).sink_spec() == old(self).sink_spec(),
            final(self)@ == (BogSettings {
                min_level: (
                    old(self).fmter().priority_spec(old(self)@.min_level.1),
                    old(self)@.min_level.1,
                ),
                ..old(self)@
            }),
    {
        self.min_level.0 = self.formatter.priority(&self.min_level.1);
    }

    /// Drops the messages whose priority is below that of `lvl`.
    pub fn filter_below(&mut self, lvl: BogLevel)
        ensures
            final(self).fmter() == old(self).fmter(),
            final(self).sink_spec() == old(self).sink_spec(),
            final(self)@ == (BogSettings {
                min_level: (old(self).fmter().priority_spec(lvl), lvl),
                ..old(self)@
            }),
    {
        self.min_level = (self.formatter.priority(&lvl), lvl);
    }

    /// Shows the messages whose priority is above that of `lvl` under `lvl`.
    pub fn downcast_above(&mut self, lvl: BogLevel)
        ensures
            final(self).fmter() == old(self).fmter(),
            final(self).sink_spec() == old(self).sink_spec(),
            final(self)@ == (BogSettings {
                downcast_to: (old(self).fmter().priority_spec(lvl), lvl),
                ..old(self)@
            }),
    {
        self.downcast_to = (self.formatter.priority(&lvl), lvl);
    }

    /// The threshold and the ceiling.
    pub fn bounds(&self) -> (r: ((u8, BogLevel), (u8, BogLevel)))
        ensures
            r == (self@.min_level, self@.downcast_to),
    {
        (self.min_level, self.downcast_to)
    }

    /// Sets the threshold and the ceiling as given, priorities included.
    pub fn set_bounds(&mut self, bounds: ((u8, BogLevel), (u8, BogLevel)))
        ensures
            final(self).fmter() == old(self).fmter(),
            final(self).sink_spec() == old(self).sink_spec(),
            final(self)@ == (BogSettings {
                min_level: bounds.0,
                downcast_to: bounds.1,
                ..old(self)@
            }),
    {
        self.min_level = bounds.0;
        self.downcast_to = bounds.1;
    }
}

/// The formatters that come with the library, as one type, so that a logger
/// can be set up with either at run time.
pub enum BogStyle {
    Fg(Fg),
    Bg(Bg),
}

impl BogFmter for BogStyle {
    open spec fn begin_tag_spec(&self, level: BogLevel) -> Seq<char> {
        match self {
            BogStyle::Fg(f) => f.begin_tag_spec(level),
            BogStyle::Bg(f) => f.begin_tag_spec(level),
        }
    }

    fn begin_tag(&self, level: BogLevel) -> (s: String) {
        match self {
            BogStyle::Fg(f) => f.begin_tag(level),
            BogStyle::Bg(f) => f.begin_tag(level),
        }
    }

    open spec fn end_tag_spec(&self) -> Seq<char> {
        match self {
            BogStyle::Fg(f) => f.end_tag_spec(),
            BogStyle::Bg(f) => f.end_tag_spec(),
        }
    }

    fn end_tag(&self) -> (s: &'static str) {
        match self {
            BogStyle::Fg(f) => f.end_tag(),
            BogStyle::Bg(f) => f.end_tag(),
        }
    }

    open spec fn push_tag_spec(&self, head: Seq<char>, tag: Seq<char>) -> Seq<char> {
        match self {
            BogStyle::Fg(f) => f.push_tag_spec(head, tag),
            BogStyle::Bg(f) => f.push_tag_spec(head, tag),
        }
    }

    fn push_tag(&self, s: &mut String, tag: &str) {
        match self {
            BogStyle::Fg(f) => f.push_tag(s, tag),
            BogStyle::Bg(f) => f.push_tag(s, tag),
        }
    }

    open spec fn format_spec(&self, level: BogLevel, tag: Seq<char>, msg: Seq<char>) -> Seq<char> {
        match self {
            BogStyle::Fg(f) => f.format_spec(level, tag, msg),
            BogStyle::Bg(f) => f.format_spec(level, tag, msg),
        }
    }

    fn format(&self, level: BogLevel, tag: &str, msg: &str) -> (s: String) {
        match self {
            BogStyle::Fg(f) => f.format(level, tag, msg),
            BogStyle::Bg(f) => f.format(level, tag, msg),
        }
    }

    open spec fn priority_spec(&self, level: BogLevel) -> u8 {
        match self {
            BogStyle::Fg(f) => f.priority_spec(level),
            BogStyle::Bg(f) => f.priority_spec(level),
        }
    }

    fn priority(&self, level: &BogLevel) -> (r: u8) {
        match self {
            BogStyle::Fg(f) => f.priority(level),
            BogStyle::Bg(f) => f.priority(level),
        }
    }
}

/// What a scope changes in the logger while it lasts. A field that is `None`
/// leaves the logger's setting as it is.
pub struct BogContext {
    lower: Option<BogLevel>,
    upper: Option<BogLevel>,
    pause: bool,
    prefix: Option<String>,
    suffix: Option<String>,
    tag_override: Option<String>,
}

/// A `BogContext` as plain values.
pub ghost struct BogContextView {
    pub lower: Option<BogLevel>,
    pub upper: Option<BogLevel>,
    pub pause: bool,
    pub prefix: Option<Seq<char>>,
    pub suffix: Option<Seq<char>>,
    pub tag_override: Option<Seq<char>>,
}

impl View for BogContext {
    type V = BogContextView;

    closed spec fn view(&self) -> BogContextView {
        BogContextView {
            lower: self.lower,
            upper: self.upper,
            pause: self.pause,
            prefix: opt_text(self.prefix),
            suffix: opt_text(self.suffix),
            tag_override: opt_text(self.tag_override),
        }
    }
}

impl BogContext {
    /// A context that changes nothing.
    pub fn new() -> (r: Self)
        ensures
            r@ == (BogContextView {
                lower: None,
                upper: None,
                pause: false,
                prefix: None,
                suffix: None,
                tag_override: None,
            }),
    {
        Self { lower: None, upper: None, pause: false, prefix: None, suffix: None, tag_override: None }
    }

    /// Messages above `level` are shown under `level`.
    pub fn upper(self, level: BogLevel) -> (r: Self)
        ensures
            r@ == (BogContextView { upper: Some(level), ..self@ }),
    {
        let mut ctx = self;
        ctx.upper = Some(level);
        ctx
    }

    /// Messages below `level` are dropped.
    pub fn lower(self, level: BogLevel) -> (r: Self)
        ensures
            r@ == (BogContextView { lower: Some(level), ..self@ }),
    {
        let mut ctx = self;
        ctx.lower = Some(level);
        ctx
    }

    /// Whether the scope drops every message.
    pub fn pause(self, pause: bool) -> (r: Self)
        ensures
            r@ == (BogContextView { pause, ..self@ }),
    {
        let mut ctx = self;
        ctx.pause = pause;
        ctx
    }

    /// The prefix that messages get in the scope.
    pub fn prefix(self, prefix: &str) -> (r: Self)
        ensures
            r@ == (BogContextView { prefix: Some(prefix@), ..self@ }),
    {
        let mut ctx = self;
        ctx.prefix = Some(prefix.to_owned());
        ctx
    }

    /// The suffix that lines get in the scope.
    pub fn suffix(self, suffix: &str) -> (r: Self)
        ensures
            r@ == (BogContextView { suffix: Some(suffix@), ..self@ }),
    {
        let mut ctx = self;
        ctx.suffix = Some(suffix.to_owned());
        ctx
    }

    /// The tag that replaces every message's own tag in the scope.
    pub fn tag(self, tag: &str) -> (r: Self)
        ensures
            r@ == (BogContextView { tag_override: Some(tag@), ..self@ }),
    {
        let mut ctx = self;
        ctx.tag_override = Some(tag.to_owned());
        ctx
    }
}

/// The bound that a scope sets from `level`, or the one in force where the
/// scope names no level.
pub open spec fn bound_or<F: BogFmter>(fmter: F, level: Option<BogLevel>, now: (u8, BogLevel)) -> (
    u8,
    BogLevel,
) {
    match level {
        Some(l) => (fmter.priority_spec(l), l),
        None => now,
    }
}

/// The text that a scope sets, or the one in force where the scope names none.
pub open spec fn text_or(text: Option<Seq<char>>, now: Seq<char>) -> Seq<char> {
    match text {
        Some(t) => t,
        None => now,
    }
}

/// The settings inside a scope: what the context names replaces what was in
/// force, and a pausing scope raises the threshold to 255.
pub open spec fn entered<F: BogFmter>(fmter: F, now: BogSettings, ctx: BogContextView) -> BogSettings {
    let floor = bound_or(fmter, ctx.lower, now.min_level);
    BogSettings {
        min_level: if ctx.pause {
            (255u8, floor.1)
        } else {
            floor
        },
        downcast_to: bound_or(fmter, ctx.upper, now.downcast_to),
        prefix: text_or(ctx.prefix, now.prefix),
        suffix: text_or(ctx.suffix, now.suffix),
        tag_override: match ctx.tag_override {
            Some(t) => Some(t),
            None => now.tag_override,
        },
    }
}

/// The settings after a scope, from what its body left (`now`) and what was
/// saved on entry. What was saved comes back as it was, in every field,
/// whatever the body left. Where nothing was saved, because there was no
/// logger on entry, a logger that the body set up keeps its settings, but
/// for a tag override where the context set one: that is taken away.
pub open spec fn restored(
    now: BogSettings,
    saved: Option<BogSettings>,
    ctx: BogContextView,
) -> BogSettings {
    match saved {
        Some(prev) => prev,
        None => BogSettings {
            tag_override: if ctx.tag_override is Some {
                None
            } else {
                now.tag_override
            },
            ..now
        },
    }
}

/// Leaving a scope brings back the bounds, prefix, suffix and tag override
/// that were in force before it, whatever they were, whatever the context
/// set and whatever the scope's body left in `inside`.
pub proof fn lemma_scope_restores(before: BogSettings, ctx: BogContextView, inside: BogSettings)
    ensures
        restored(inside, Some(before), ctx) == before,
{
}

/// The same holds of a scope inside a scope: when the inner one is left the
/// outer scope's settings are back, and when the outer one is left the
/// settings from before both.
pub proof fn lemma_nested_scopes_restore<F: BogFmter>(
    fmter: F,
    before: BogSettings,
    outer: BogContextView,
    inner: BogContextView,
    inside: BogSettings,
)
    ensures
        restored(inside, Some(entered(fmter, before, outer)), inner) == entered(
            fmter,
            before,
            outer,
        ),
        restored(
            restored(inside, Some(entered(fmter, before, outer)), inner),
            Some(before),
            outer,
        ) == before,
{
}

/// The context of a scope that drops every message and changes nothing
/// else.
pub open spec fn pausing_context() -> BogContextView {
    BogContextView {
        lower: None,
        upper: None,
        pause: true,
        prefix: None,
        suffix: None,
        tag_override: None,
    }
}

/// A pausing scope raises the threshold to 255 and changes nothing else, and
/// leaves the settings as it found them, a threshold of 255 included: a
/// logger that was paused before the scope is paused after it.
pub proof fn lemma_paused_restores<F: BogFmter>(fmter: F, before: BogSettings, inside: BogSettings)
    ensures
        entered(fmter, before, pausing_context()) == (BogSettings {
            min_level: (255, before.min_level.1),
            ..before
        }),
        restored(inside, Some(before), pausing_context()) == before,
{
}

/// The line that the logger in a slot gives for a message; none where the
/// slot is empty.
pub open spec fn slot_emitted<F: BogFmter>(
    slot: Option<GLOBAL_BOGGER_STRUCT<F>>,
    level: BogLevel,
    tag: Seq<char>,
    msg: Seq<char>,
) -> Option<Seq<char>> {
    match slot {
        Some(b) => emitted(b.fmter(), b@, level, tag, msg),
        None => None,
    }
}

/// The settings of the logger in a slot, if there is one.
pub open spec fn slot_settings<F: BogFmter>(slot: Option<GLOBAL_BOGGER_STRUCT<F>>) -> Option<
    BogSettings,
> {
    match slot {
        Some(b) => Some(b@),
        None => None,
    }
}

/// The slot inside a scope, as far as contracts see it: the same formatter
/// and sink, and the settings that the context gives.
pub open spec fn slot_entered<F: BogFmter>(
    before: Option<GLOBAL_BOGGER_STRUCT<F>>,
    inside: Option<GLOBAL_BOGGER_STRUCT<F>>,
    ctx: BogContextView,
) -> bool {
    match before {
        Some(b) => inside matches Some(i) && i.fmter() == b.fmter() && i.sink_spec()
            == b.sink_spec() && i@ == entered(b.fmter(), b@, ctx),
        None => inside is None,
    }
}

/// The slot after a scope: the logger that the scope's body left, with its
/// settings restored from what was saved.
pub open spec fn slot_restored<F: BogFmter>(
    left: Option<GLOBAL_BOGGER_STRUCT<F>>,
    after: Option<GLOBAL_BOGGER_STRUCT<F>>,
    saved: Option<BogSettings>,
    ctx: BogContextView,
) -> bool {
    match left {
        Some(l) => after matches Some(a) && a.fmter() == l.fmter() && a.sink_spec()
            == l.sink_spec() && a@ == restored(l@, saved, ctx),
        None => after is None,
    }
}

/// A scope whose body hands back the logger it was given, with whatever
/// settings, leaves the logger as it was before the scope: the same
/// formatter and sink, and the same settings in every field.
pub proof fn lemma_slot_scope_restores<F: BogFmter>(
    before: GLOBAL_BOGGER_STRUCT<F>,
    left: GLOBAL_BOGGER_STRUCT<F>,
    after: Option<GLOBAL_BOGGER_STRUCT<F>>,
    ctx: BogContextView,
)
    requires
        left.fmter() == before.fmter(),
        left.sink_spec() == before.sink_spec(),
        slot_restored(Some(left), after, slot_settings(Some(before)), ctx),
    ensures
        after matches Some(a) && a.fmter() == before.fmter() && a.sink_spec() == before.sink_spec()
            && a@ == before@,
{
}

/// The slot after pausing: the threshold is at 255, the rest as before.
pub open spec fn slot_paused<F: BogFmter>(
    before: Option<GLOBAL_BOGGER_STRUCT<F>>,
    after: Option<GLOBAL_BOGGER_STRUCT<F>>,
) -> bool {
    match before {
        Some(b) => after matches Some(a) && a.fmter() == b.fmter() && a.sink_spec()
            == b.sink_spec() && a@ == (BogSettings { min_level: (255, b@.min_level.1), ..b@ }),
        None => after is None,
    }
}

/// The slot after resuming: the threshold is the priority of its level, the
/// rest as before.
pub open spec fn slot_resumed<F: BogFmter>(
    before: Option<GLOBAL_BOGGER_STRUCT<F>>,
    after: Option<GLOBAL_BOGGER_STRUCT<F>>,
) -> bool {
    match before {
        Some(b) => after matches Some(a) && a.fmter() == b.fmter() && a.sink_spec()
            == b.sink_spec() && a@ == (BogSettings {
            min_level: (b.fmter().priority_spec(b@.min_level.1), b@.min_level.1),
            ..b@
        }),
        None => after is None,
    }
}

/// What `Bogger::enter` saves of a logger, to be handed to `Bogger::leave`.
pub struct BogSnapshot {
    saved: Option<SavedSettings>,
}

struct SavedSettings {
    bounds: ((u8, BogLevel), (u8, BogLevel)),
    prefix: String,
    suffix: String,
    tag_override: Option<String>,
}

impl View for BogSnapshot {
    type V = Option<BogSettings>;

    closed spec fn view(&self) -> Option<BogSettings> {
        match self.saved {
            Some(s) => Some(
                BogSettings {
                    min_level: s.bounds.0,
                    downcast_to: s.bounds.1,
                    prefix: s.prefix@,
                    suffix: s.suffix@,
                    tag_override: opt_text(s.tag_override),
                },
            ),
            None => None,
        }
    }
}

fn clone_opt_text(s: &Option<String>) -> (r: Option<String>)
    ensures
        opt_text(r) == opt_text(*s),
{
    match s {
        Some(t) => Some(t.clone()),
        None => None,
    }
}

/// The operations on the slot that holds the process's logger. An empty slot
/// is a logger that was never set up: every operation leaves it empty.
pub struct Bogger {}

impl Bogger {
    /// The line to write for a message; `None` where the message is dropped
    /// or the slot is empty.
    pub fn bog<F: BogFmter>(
        slot: &Option<GLOBAL_BOGGER_STRUCT<F>>,
        level: BogLevel,
        tag: &str,
        msg: &str,
    ) -> (line: Option<String>)
        ensures
            opt_text(line) == slot_emitted(*slot, level, tag@, msg@),
    {
        match slot {
            Some(b) => b.bog(level, tag, msg),
            None => None,
        }
    }

    /// Drops the messages whose priority is below that of `lvl`.
    pub fn filter_below<F: BogFmter>(slot: &mut Option<GLOBAL_BOGGER_STRUCT<F>>, lvl: BogLevel)
        ensures
            match *old(slot) {
                Some(b) => *final(slot) matches Some(a) && a.fmter() == b.fmter() && a.sink_spec()
                    == b.sink_spec() && a@ == (BogSettings {
                    min_level: (b.fmter().priority_spec(lvl), lvl),
                    ..b@
                }),
                None => *final(slot) is None,
            },
    {
        match slot {
            Some(b) => {
                b.filter_below(lvl);
            },
            None => {},
        }
    }

    /// Shows the messages whose priority is above that of `lvl` under `lvl`.
    pub fn downcast_above<F: BogFmter>(slot: &mut Option<GLOBAL_BOGGER_STRUCT<F>>, lvl: BogLevel)
        ensures
            match *old(slot) {
                Some(b) => *final(slot) matches Some(a) && a.fmter() == b.fmter() && a.sink_spec()
                    == b.sink_spec() && a@ == (BogSettings {
                    downcast_to: (b.fmter().priority_spec(lvl), lvl),
                    ..b@
                }),
                None => *final(slot) is None,
            },
    {
        match slot {
            Some(b) => {
                b.downcast_above(lvl);
            },
            None => {},
        }
    }

    /// Drops every message until `resume`.
    pub fn pause<F: BogFmter>(slot: &mut Option<GLOBAL_BOGGER_STRUCT<F>>)
        ensures
            slot_paused(*old(slot), *final(slot)),
    {
        match slot {
            Some(b) => {
                b.pause();
            },
            None => {},
        }
    }

    /// Sets the threshold back to the priority of the level it was set from.
    pub fn resume<F: BogFmter>(slot: &mut Option<GLOBAL_BOGGER_STRUCT<F>>)
        ensures
            slot_resumed(*old(slot), *final(slot)),
    {
        match slot {
            Some(b) => {
                b.resume();
            },
            None => {},
        }
    }

    /// Opens a scope: saves the logger's settings and applies the context.
    pub fn enter<F: BogFmter>(
        slot: &mut Option<GLOBAL_BOGGER_STRUCT<F>>,
        context: &BogContext,
    ) -> (snapshot: BogSnapshot)
        ensures
            snapshot@ == slot_settings(*old(slot)),
            slot_entered(*old(slot), *final(slot), context@),
    {
        match slot {
            Some(b) => {
                let saved = SavedSettings {
                    bounds: b.bounds(),
                    prefix: b.prefix.clone(),
                    suffix: b.suffix.clone(),
                    tag_override: clone_opt_text(&b.tag_override),
                };
                if let Some(level) = context.lower {
                    b.filter_below(level);
                }
                if let Some(level) = context.upper {
                    b.downcast_above(level);
                }
                if let Some(prefix) = &context.prefix {
                    b.prefix = prefix.clone();
                }
                if let Some(suffix) = &context.suffix {
                    b.suffix = suffix.clone();
                }
                if let Some(tag) = &context.tag_override {
                    b.tag_override = Some(tag.clone());
                }
                if context.pause {
                    b.pause();
                }
                BogSnapshot { saved: Some(saved) }
            },
            None => BogSnapshot { saved: None },
        }
    }

    /// Closes a scope: puts back what `enter` saved, as it was: the bounds
    /// with their priorities, the prefix, the suffix and the tag override.
    pub fn leave<F: BogFmter>(
        slot: &mut Option<GLOBAL_BOGGER_STRUCT<F>>,
        snapshot: BogSnapshot,
        context: &BogContext,
    )
        ensures
            slot_restored(*old(slot), *final(slot), snapshot@, context@),
    {
        match slot {
            Some(b) => {
                match snapshot.saved {
                    Some(saved) => {
                        b.set_bounds(saved.bounds);
                        b.prefix = saved.prefix;
                        b.suffix = saved.suffix;
                        b.tag_override = saved.tag_override;
                    },
                    None => {
                        if context.tag_override.is_some() {
                            b.tag_override = None;
                        }
                    },
                }
            },
            None => {},
        }
    }

    /// Runs `f` inside a scope: the context applies while `f` runs, and the
    /// settings saved on entry are put back when it returns. `f` is handed
    /// the slot and hands it back with its result.
    pub fn with<F: BogFmter, T, C: FnOnce(Option<GLOBAL_BOGGER_STRUCT<F>>) -> (
        Option<GLOBAL_BOGGER_STRUCT<F>>,
        T,
    )>(slot: &mut Option<GLOBAL_BOGGER_STRUCT<F>>, context: BogContext, f: C) -> (r: T)
        requires
            forall|inside: Option<GLOBAL_BOGGER_STRUCT<F>>|
                slot_entered(*old(slot), inside, context@) ==> call_requires(f, (inside,)),
        ensures
            exists|inside: Option<GLOBAL_BOGGER_STRUCT<F>>, left: Option<GLOBAL_BOGGER_STRUCT<F>>|
                slot_entered(*old(slot), inside, context@) && #[trigger] call_ensures(
                    f,
                    (inside,),
                    (left, r),
                ) && slot_restored(left, *final(slot), slot_settings(*old(slot)), context@),
    {
        let snapshot = Bogger::enter(slot, &context);
        let inside = slot.take();
        let (left, r) = f(inside);
        *slot = left;
        Bogger::leave(slot, snapshot, &context);
        r
    }

    /// Runs `f` in a scope that drops every message, and puts the settings
    /// back as they were when it returns: a logger that was paused before is
    /// paused after.
    pub fn paused<F: BogFmter, T, C: FnOnce(Option<GLOBAL_BOGGER_STRUCT<F>>) -> (
        Option<GLOBAL_BOGGER_STRUCT<F>>,
        T,
    )>(slot: &mut Option<GLOBAL_BOGGER_STRUCT<F>>, f: C) -> (r: T)
        requires
            forall|inside: Option<GLOBAL_BOGGER_STRUCT<F>>|
                slot_entered(*old(slot), inside, pausing_context()) ==> call_requires(
                    f,
                    (inside,),
                ),
        ensures
            exists|inside: Option<GLOBAL_BOGGER_STRUCT<F>>, left: Option<GLOBAL_BOGGER_STRUCT<F>>|
                slot_entered(*old(slot), inside, pausing_context()) && #[trigger] call_ensures(
                    f,
                    (inside,),
                    (left, r),
                ) && slot_restored(
                    left,
                    *final(slot),
                    slot_settings(*old(slot)),
                    pausing_context(),
                ),
    {
        Bogger::with(slot, BogContext::new().pause(true), f)
    }
}

/// The level that a verbosity stands for: 0 shows errors only, each step up
/// to 4 shows one level more, and anything above shows everything.
pub open spec fn verbosity_level(verbosity: u8) -> BogLevel {
    if verbosity == 0 {
        BogLevel::ERROR
    } else if verbosity == 1 {
        BogLevel::WARN
    } else if verbosity == 2 {
        BogLevel::INFO
    } else if verbosity == 3 {
        BogLevel::DEBUG
    } else if verbosity == 4 {
        BogLevel::DNOTE
    } else {
        BogLevel::ALL
    }
}

/// With the usual priorities, verbosity 0 lets through what ranks as an error
/// or above, each step up to 4 lets one more level through, and from 5 on
/// nothing is held back.
pub proof fn lemma_verbosity_threshold(verbosity: u8)
    ensures
        level_priority(verbosity_level(verbosity)) == (if verbosity == 0 {
            100u8
        } else if verbosity == 1 {
            80u8
        } else if verbosity == 2 {
            60u8
        } else if verbosity == 3 {
            40u8
        } else if verbosity == 4 {
            20u8
        } else {
            0u8
        }),
        verbosity >= 5 ==> forall|level: BogLevel|
            #[trigger] level_priority(level) >= level_priority(verbosity_level(verbosity)),
{
}

/// A message is shown exactly when its priority is not below the threshold.
pub proof fn lemma_emitted_unless_below<F: BogFmter>(
    fmter: F,
    settings: BogSettings,
    level: BogLevel,
    tag: Seq<char>,
    msg: Seq<char>,
)
    ensures
        emitted(fmter, settings, level, tag, msg) is Some <==> fmter.priority_spec(level)
            >= settings.min_level.0,
{
}

/// Puts a fresh logger into the slot: `Fg` if `fg`, else `Bg`; bound for
/// standard error if `output_stderr`, else for standard output.
pub fn init_bogger(slot: &mut Option<GLOBAL_BOGGER_STRUCT<BogStyle>>, fg: bool, output_stderr: bool)
    ensures
        *final(slot) matches Some(b) && b@ == initial_settings() && b.fmter() == (if fg {
            BogStyle::Fg(Fg {  })
        } else {
            BogStyle::Bg(Bg {  })
        }) && b.sink_spec() == (if output_stderr {
            BogSink::Stderr
        } else {
            BogSink::Stdout
        }),
{
    let sink = if output_stderr {
        BogSink::Stderr
    } else {
        BogSink::Stdout
    };
    if fg {
        GLOBAL_BOGGER_STRUCT::init_global(slot, BogStyle::Fg(Fg {  }), sink);
    } else {
        GLOBAL_BOGGER_STRUCT::init_global(slot, BogStyle::Bg(Bg {  }), sink);
    }
}

/// Sets the threshold from a verbosity: the logger then drops what is below
/// `verbosity_level(verbosity)`.
pub fn init_filter<F: BogFmter>(slot: &mut Option<GLOBAL_BOGGER_STRUCT<F>>, verbosity: u8)
    ensures
        match *old(slot) {
            Some(b) => *final(slot) matches Some(a) && a.fmter() == b.fmter() && a.sink_spec()
                == b.sink_spec() && a@ == (BogSettings {
                min_level: (
                    b.fmter().priority_spec(verbosity_level(verbosity)),
                    verbosity_level(verbosity),
                ),
                ..b@
            }),
            None => *final(slot) is None,
        },
{
    match verbosity {
        0 => Bogger::filter_below(slot, BogLevel::ERROR),
        1 => Bogger::filter_below(slot, BogLevel::WARN),
        2 => Bogger::filter_below(slot, BogLevel::INFO),
        3 => Bogger::filter_below(slot, BogLevel::DEBUG),
        4 => Bogger::filter_below(slot, BogLevel::DNOTE),
        _ => Bogger::filter_below(slot, BogLevel::ALL),
    }
}

/// The line to write for a message; `None` where the message is dropped or
/// the slot is empty.
pub fn bog<F: BogFmter>(
    slot: &Option<GLOBAL_BOGGER_STRUCT<F>>,
    level: BogLevel,
    tag: &str,
    msg: &str,
) -> (line: Option<String>)
    ensures
        opt_text(line) == slot_emitted(*slot, level, tag@, msg@),
{
    Bogger::bog(slot, level, tag, msg)
}

/// What `or_bog_tagged` gives for a result: the value of an `Ok`, and for an
/// `Err` the line that reports some text the error displays as.
pub open spec fn reported<T, E: core::fmt::Display, F: BogFmter>(
    result: Result<T, E>,
    slot: Option<GLOBAL_BOGGER_STRUCT<F>>,
    level: BogLevel,
    tag: Seq<char>,
    out: (Option<T>, Option<String>),
) -> bool {
    match result {
        Ok(v) => out.0 == Some(v) && out.1 is None,
        Err(e) => out.0 is None && exists|text: String| #[trigger]
            to_string_from_display_ensures::<E>(&e, text) && opt_text(out.1) == slot_emitted(
                slot,
                level,
                tag,
                text@,
            ),
    }
}

/// Turns a `Result` into an `Option`, with the line that reports the error.
/// The caller writes the line.
pub trait BogOkExt<T, E: core::fmt::Display>: Sized {
    /// The value, or the line that reports the error at `level` under `tag`.
    fn or_bog_tagged<F: BogFmter>(
        self,
        slot: &Option<GLOBAL_BOGGER_STRUCT<F>>,
        level: BogLevel,
        tag: &str,
    ) -> (Option<T>, Option<String>);

    /// The value, or the line that reports the error as an error under
    /// `tag`.
    fn or_err_tagged<F: BogFmter>(self, slot: &Option<GLOBAL_BOGGER_STRUCT<F>>, tag: &str) -> (
        Option<T>,
        Option<String>,
    );

    /// The value, or the line that reports the error as a warning under
    /// `tag`.
    fn or_warn_tagged<F: BogFmter>(self, slot: &Option<GLOBAL_BOGGER_STRUCT<F>>, tag: &str) -> (
        Option<T>,
        Option<String>,
    );

    /// The value, or the line that reports the error at `level`, untagged.
    fn or_bog<F: BogFmter>(self, slot: &Option<GLOBAL_BOGGER_STRUCT<F>>, level: BogLevel) -> (
        Option<T>,
        Option<String>,
    );

    /// The value, or the line that reports the error as an error, untagged.
    fn or_err<F: BogFmter>(self, slot: &Option<GLOBAL_BOGGER_STRUCT<F>>) -> (
        Option<T>,
        Option<String>,
    );

    /// The value, or the line that reports the error as a warning, untagged.
    fn or_warn<F: BogFmter>(self, slot: &Option<GLOBAL_BOGGER_STRUCT<F>>) -> (
        Option<T>,
        Option<String>,
    );
}

impl<T, E: core::fmt::Display> BogOkExt<T, E> for Result<T, E> {
    fn or_bog_tagged<F: BogFmter>(
        self,
        slot: &Option<GLOBAL_BOGGER_STRUCT<F>>,
        level: BogLevel,
        tag: &str,
    ) -> (r: (Option<T>, Option<String>))
        ensures
            reported(self, *slot, level, tag@, r),
    {
        match self {
            Ok(val) => (Some(val), None),
            Err(e) => {
                let text = e.to_string();
                let line = bog(slot, level, tag, text.as_str());
                (None, line)
            },
        }
    }

    fn or_err_tagged<F: BogFmter>(self, slot: &Option<GLOBAL_BOGGER_STRUCT<F>>, tag: &str) -> (r: (
        Option<T>,
        Option<String>,
    ))
        ensures
            reported(self, *slot, BogLevel::ERROR, tag@, r),
    {
        self.or_bog_tagged(slot, BogLevel::ERROR, tag)
    }

    fn or_warn_tagged<F: BogFmter>(self, slot: &Option<GLOBAL_BOGGER_STRUCT<F>>, tag: &str) -> (r: (
        Option<T>,
        Option<String>,
    ))
        ensures
            reported(self, *slot, BogLevel::WARN, tag@, r),
    {
        self.or_bog_tagged(slot, BogLevel::WARN, tag)
    }

    fn or_bog<F: BogFmter>(self, slot: &Option<GLOBAL_BOGGER_STRUCT<F>>, level: BogLevel) -> (r: (
        Option<T>,
        Option<String>,
    ))
        ensures
            reported(self, *slot, level, ""@, r),
    {
        self.or_bog_tagged(slot, level, "")
    }

    fn or_err<F: BogFmter>(self, slot: &Option<GLOBAL_BOGGER_STRUCT<F>>) -> (r: (
        Option<T>,
        Option<String>,
    ))
        ensures
            reported(self, *slot, BogLevel::ERROR, ""@, r),
    {
        self.or_err_tagged(slot, "")
    }

    fn or_warn<F: BogFmter>(self, slot: &Option<GLOBAL_BOGGER_STRUCT<F>>) -> (r: (
        Option<T>,
        Option<String>,
    ))
        ensures
            reported(self, *slot, BogLevel::WARN, ""@, r),
    {
        self.or_warn_tagged(slot, "")
    }
}

/// What `or_bog_tagged` gives for an option: the value of a `Some`, and for a
/// `None` the line that reports `msg`.
pub open spec fn demanded<T, F: BogFmter>(
    option: Option<T>,
    slot: Option<GLOBAL_BOGGER_STRUCT<F>>,
    level: BogLevel,
    tag: Seq<char>,
    msg: Seq<char>,
    out: Result<T, Option<String>>,
) -> bool {
    match option {
        Some(v) => out == Ok::<T, Option<String>>(v),
        None => out is Err && opt_text(out->Err_0) == slot_emitted(slot, level, tag, msg),
    }
}

/// Takes the value out of an `Option` that the program cannot go on without.
/// For a `None` the result is the line to write before giving up; giving up
/// is the caller's part.
pub trait BogUnwrapExt<T>: Sized {
    /// The value, or the line that reports `msg` at `level` under `tag`.
    fn or_bog_tagged<F: BogFmter>(
        self,
        slot: &Option<GLOBAL_BOGGER_STRUCT<F>>,
        level: BogLevel,
        tag: &str,
        msg: &str,
    ) -> Result<T, Option<String>>;

    /// The value, or the line that reports `msg` at `level`, untagged.
    fn or_bog<F: BogFmter>(
        self,
        slot: &Option<GLOBAL_BOGGER_STRUCT<F>>,
        level: BogLevel,
        msg: &str,
    ) -> Result<T, Option<String>>;

    /// The value, or the line that reports `msg` as an error, untagged.
    fn or_err<F: BogFmter>(self, slot: &Option<GLOBAL_BOGGER_STRUCT<F>>, msg: &str) -> Result<
        T,
        Option<String>,
    >;

    /// The value, or the line that reports `msg` as an error under `tag`.
    fn or_err_tagged<F: BogFmter>(
        self,
        slot: &Option<GLOBAL_BOGGER_STRUCT<F>>,
        tag: &str,
        msg: &str,
    ) -> Result<T, Option<String>>;
}

impl<T> BogUnwrapExt<T> for Option<T> {
    fn or_bog_tagged<F: BogFmter>(
        self,
        slot: &Option<GLOBAL_BOGGER_STRUCT<F>>,
        level: BogLevel,
        tag: &str,
        msg: &str,
    ) -> (r: Result<T, Option<String>>)
        ensures
            demanded(self, *slot, level, tag@, msg@, r),
    {
        match self {
            Some(val) => Ok(val),
            None => Err(bog(slot, level, tag, msg)),
        }
    }

    fn or_bog<F: BogFmter>(
        self,
        slot: &Option<GLOBAL_BOGGER_STRUCT<F>>,
        level: BogLevel,
        msg: &str,
    ) -> (r: Result<T, Option<String>>)
        ensures
            demanded(self, *slot, level, ""@, msg@, r),
    {
        self.or_bog_tagged(slot, level, "", msg)
    }

    fn or_err<F: BogFmter>(self, slot: &Option<GLOBAL_BOGGER_STRUCT<F>>, msg: &str) -> (r: Result<
        T,
        Option<String>,
    >)
        ensures
            demanded(self, *slot, BogLevel::ERROR, ""@, msg@, r),
    {
        self.or_bog(slot, BogLevel::ERROR, msg)
    }

    fn or_err_tagged<F: BogFmter>(
        self,
        slot: &Option<GLOBAL_BOGGER_STRUCT<F>>,
        tag: &str,
        msg: &str,
    ) -> (r: Result<T, Option<String>>)
        ensures
            demanded(self, *slot, BogLevel::ERROR, tag@, msg@, r),
    {
        self.or_bog_tagged(slot, BogLevel::ERROR, tag, msg)
    }
}

} // verus!
