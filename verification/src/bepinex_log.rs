//! Log levels and log entries received from the game process.

use vstd::prelude::*;

use crate::text::{lower_of, to_lowercase_string};

verus! {

/// Severity of a log line, as sent on the wire by the game side.
///
/// The numeric values form a bit-flag-like scale; the ordering of those
/// values (`None < Fatal < Error < Warning < Message < Info < Debug < All`)
/// drives the level filter threshold: an entry is shown only when its level
/// value is at most the threshold value.
#[derive(Debug, Clone, Copy, PartialEq, Eq, Structural)]
pub enum LogLevel {
    LevelNone,
    Fatal,
    Error,
    Warning,
    Message,
    Info,
    Debug,
    All,
}

impl LogLevel {
    /// Numeric wire value of the level.
    pub open spec fn value(self) -> u32 {
        match self {
            LogLevel::LevelNone => 0x0,
            LogLevel::Fatal => 0x1,
            LogLevel::Error => 0x2,
            LogLevel::Warning => 0x4,
            LogLevel::Message => 0x8,
            LogLevel::Info => 0x10,
            LogLevel::Debug => 0x20,
            LogLevel::All => 0x3F,
        }
    }

    /// The level a raw wire value stands for: recognized values map to their
    /// variant, every other bit pattern falls back to `All`.
    pub open spec fn spec_from_bits(bits: u32) -> LogLevel {
        match bits {
            0x0 => LogLevel::LevelNone,
            0x1 => LogLevel::Fatal,
            0x2 => LogLevel::Error,
            0x4 => LogLevel::Warning,
            0x8 => LogLevel::Message,
            0x10 => LogLevel::Info,
            0x20 => LogLevel::Debug,
            _ => LogLevel::All,
        }
    }

    /// Checked conversion from a raw wire value.
    pub fn from_bits(bits: u32) -> (level: LogLevel)
        ensures
            level == LogLevel::spec_from_bits(bits),
    {
        match bits {
            0x0 => LogLevel::LevelNone,
            0x1 => LogLevel::Fatal,
            0x2 => LogLevel::Error,
            0x4 => LogLevel::Warning,
            0x8 => LogLevel::Message,
            0x10 => LogLevel::Info,
            0x20 => LogLevel::Debug,
            _ => LogLevel::All,
        }
    }

    /// Numeric wire value, as executable code.
    pub fn bits(self) -> (bits: u32)
        ensures
            bits == self.value(),
    {
        match self {
            LogLevel::LevelNone => 0x0,
            LogLevel::Fatal => 0x1,
            LogLevel::Error => 0x2,
            LogLevel::Warning => 0x4,
            LogLevel::Message => 0x8,
            LogLevel::Info => 0x10,
            LogLevel::Debug => 0x20,
            LogLevel::All => 0x3F,
        }
    }

    /// `self` is at most `other` on the severity scale.
    pub fn le(self, other: LogLevel) -> (r: bool)
        ensures
            r == (self.value() <= other.value()),
    {
        self.bits() <= other.bits()
    }

    /// Position of the level on the slider scale, `0` to `7`.
    pub open spec fn spec_rank(self) -> u8 {
        match self {
            LogLevel::LevelNone => 0,
            LogLevel::Fatal => 1,
            LogLevel::Error => 2,
            LogLevel::Warning => 3,
            LogLevel::Message => 4,
            LogLevel::Info => 5,
            LogLevel::Debug => 6,
            LogLevel::All => 7,
        }
    }

    /// Position of the level on the slider scale, as executable code.
    pub fn rank(self) -> (r: u8)
        ensures
            r == self.spec_rank(),
    {
        match self {
            LogLevel::LevelNone => 0,
            LogLevel::Fatal => 1,
            LogLevel::Error => 2,
            LogLevel::Warning => 3,
            LogLevel::Message => 4,
            LogLevel::Info => 5,
            LogLevel::Debug => 6,
            LogLevel::All => 7,
        }
    }

    /// The level at a slider position; positions past the end of the scale
    /// fall back to `All`.
    pub fn from_rank(rank: u8) -> (level: LogLevel)
        ensures
            rank <= 7 ==> level.spec_rank() == rank,
            rank > 7 ==> level == LogLevel::All,
    {
        match rank {
            0 => LogLevel::LevelNone,
            1 => LogLevel::Fatal,
            2 => LogLevel::Error,
            3 => LogLevel::Warning,
            4 => LogLevel::Message,
            5 => LogLevel::Info,
            6 => LogLevel::Debug,
            _ => LogLevel::All,
        }
    }
}

/// A log line paired with its severity, the raw message form published on
/// the log channel of the earlier pipeline revision.
pub struct BepInExLog {
    pub level: LogLevel,
    pub data: String,
}

impl BepInExLog {
    pub fn new(level: LogLevel, data: String) -> (log: BepInExLog)
        ensures
            log.level == level,
            log.data@ == data@,
    {
        BepInExLog { level, data }
    }
}

/// A log line as stored by the viewer.
///
/// The lowercase form of the text is computed once at construction so that
/// per-frame filtering allocates nothing; `is_selected` is recomputed every
/// frame from the selection range.
pub struct BepInExLogEntry {
    level: LogLevel,
    data: String,
    data_lowercase: String,
    is_selected: bool,
}

impl BepInExLogEntry {
    /// The lowercase field always caches the case folding of the text.
    #[verifier::type_invariant]
    spec fn wf(self) -> bool {
        self.data_lowercase@ == lower_of(self.data@)
    }

    /// A freshly received entry; not selected until a drag selects it.
    pub fn new(level: LogLevel, data: &str) -> (entry: BepInExLogEntry)
        ensures
            entry.spec_level() == level,
            entry.spec_data()@ == data@,
            entry.spec_data_lowercase()@ == lower_of(data@),
            !entry.spec_selected(),
    {
        BepInExLogEntry {
            level,
            data: data.to_owned(),
            data_lowercase: to_lowercase_string(data),
            is_selected: false,
        }
    }

    pub closed spec fn spec_level(self) -> LogLevel {
        self.level
    }

    pub closed spec fn spec_data(self) -> String {
        self.data
    }

    pub closed spec fn spec_data_lowercase(self) -> String {
        self.data_lowercase
    }

    pub closed spec fn spec_selected(self) -> bool {
        self.is_selected
    }

    /// Severity of the entry.
    pub fn level(&self) -> (level: LogLevel)
        ensures
            level == self.spec_level(),
    {
        self.level
    }

    /// Text of the entry.
    pub fn data(&self) -> (data: &str)
        ensures
            data@ == self.spec_data()@,
    {
        self.data.as_str()
    }

    /// Lowercase form of the text, cached at construction.
    pub fn data_lowercase(&self) -> (data: &str)
        ensures
            data@ == self.spec_data_lowercase()@,
            data@ == lower_of(self.spec_data()@),
    {
        proof {
            use_type_invariant(self);
        }
        self.data_lowercase.as_str()
    }

    /// Whether the entry is currently inside the selection range.
    pub fn is_selected(&self) -> (r: bool)
        ensures
            r == self.spec_selected(),
    {
        self.is_selected
    }

    /// Mark or unmark the entry as selected; everything else is kept.
    pub fn set_selected(&mut self, selected: bool)
        ensures
            final(self).spec_selected() == selected,
            final(self).spec_level() == old(self).spec_level(),
            final(self).spec_data() == old(self).spec_data(),
            final(self).spec_data_lowercase() == old(self).spec_data_lowercase(),
    {
        proof {
            use_type_invariant(&*self);
        }
        self.is_selected = selected;
    }
}

} // verus!
