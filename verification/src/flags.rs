//! Bit-flag enumerations and their set abstraction.
//!
//! The native library takes window configuration flags and trace-log levels
//! as a single integer, one reserved bit per flag, combined by bitwise or.
//! Each flag enumeration here pairs with a set type that holds such a
//! combination: the set folds to the native integer with `bits`, and a
//! native integer decodes back with `from_bits`, which refuses any integer
//! that carries an unknown bit. Folding and decoding are proved inverse to
//! one another.

use vstd::prelude::*;

verus! {

/// Window configuration flags, one reserved bit each.
#[derive(Debug, Copy, Clone, PartialEq, Eq, Hash, Structural)]
pub enum ConfigFlag {
    /// Show the engine logo at startup.
    ShowLogo,
    /// Run the program in fullscreen.
    FullscreenMode,
    /// Allow resizing the window.
    WindowResizable,
    /// Disable window decoration (frame and buttons).
    WindowUndecorated,
    /// Allow a transparent window.
    WindowTransparent,
    /// Try to enable 4x multisample antialiasing.
    Msaa4xHint,
    /// Try to enable vertical sync on the GPU.
    VsyncHint,
}

/// Every bit a window configuration flag can occupy.
pub const CONFIG_FLAGS_MASK: u8 = 0x7F;

/// The reserved bit of each window configuration flag.
pub open spec fn config_flag_bit(f: ConfigFlag) -> u8 {
    match f {
        ConfigFlag::ShowLogo => 1,
        ConfigFlag::FullscreenMode => 2,
        ConfigFlag::WindowResizable => 4,
        ConfigFlag::WindowUndecorated => 8,
        ConfigFlag::WindowTransparent => 16,
        ConfigFlag::Msaa4xHint => 32,
        ConfigFlag::VsyncHint => 64,
    }
}

impl ConfigFlag {
    /// The reserved bit of this flag in the native integer.
    pub fn bit(self) -> (b: u8)
        ensures
            b == config_flag_bit(self),
    {
        match self {
            ConfigFlag::ShowLogo => 1,
            ConfigFlag::FullscreenMode => 2,
            ConfigFlag::WindowResizable => 4,
            ConfigFlag::WindowUndecorated => 8,
            ConfigFlag::WindowTransparent => 16,
            ConfigFlag::Msaa4xHint => 32,
            ConfigFlag::VsyncHint => 64,
        }
    }
}

/// A set of window configuration flags, held as the bitwise or of the
/// members' reserved bits.
#[derive(Debug, Copy, Clone, PartialEq, Eq, Hash, Structural)]
pub struct ConfigFlags {
    /// The folded native integer: the bitwise or of the members' bits.
    pub bits: u8,
}

/// The flag set a native integer decodes to: the set with exactly those
/// bits when every bit is a known flag's, and nothing otherwise.
pub open spec fn config_flags_of_bits(bits: u8) -> Option<ConfigFlags> {
    if bits & CONFIG_FLAGS_MASK == bits {
        Some(ConfigFlags { bits })
    } else {
        None
    }
}

impl ConfigFlags {
    /// The set carries no bit outside the known flags.
    pub open spec fn wf(self) -> bool {
        self.bits & CONFIG_FLAGS_MASK == self.bits
    }

    /// The native integer this set folds to.
    pub open spec fn spec_bits(self) -> u8 {
        self.bits
    }

    /// Whether the set holds the given flag.
    pub open spec fn has(self, f: ConfigFlag) -> bool {
        self.bits & config_flag_bit(f) != 0
    }

    /// The set with no flag in it.
    pub fn empty() -> (s: ConfigFlags)
        ensures
            s.wf(),
            s.spec_bits() == 0,
    {
        proof {
            assert(0u8 & CONFIG_FLAGS_MASK == 0u8) by (bit_vector);
        }
        ConfigFlags { bits: 0 }
    }

    /// The set with every known flag in it.
    pub fn all() -> (s: ConfigFlags)
        ensures
            s.wf(),
            s.spec_bits() == CONFIG_FLAGS_MASK,
    {
        proof {
            assert(CONFIG_FLAGS_MASK & CONFIG_FLAGS_MASK == CONFIG_FLAGS_MASK) by (bit_vector);
        }
        ConfigFlags { bits: CONFIG_FLAGS_MASK }
    }

    /// This set with one more flag in it.
    pub fn with(self, f: ConfigFlag) -> (s: ConfigFlags)
        requires
            self.wf(),
        ensures
            s.wf(),
            s.spec_bits() == self.spec_bits() | config_flag_bit(f),
    {
        proof {
            lemma_config_flag_bit_in_mask(f);
            lemma_u8_or_stays_in_mask(self.bits, config_flag_bit(f), CONFIG_FLAGS_MASK);
        }
        ConfigFlags { bits: self.bits | f.bit() }
    }

    /// The union of two flag sets.
    pub fn union(self, other: ConfigFlags) -> (s: ConfigFlags)
        requires
            self.wf(),
            other.wf(),
        ensures
            s.wf(),
            s.spec_bits() == self.spec_bits() | other.spec_bits(),
    {
        proof {
            lemma_u8_or_stays_in_mask(self.bits, other.bits, CONFIG_FLAGS_MASK);
        }
        ConfigFlags { bits: self.bits | other.bits }
    }

    /// Whether the set holds the given flag.
    pub fn contains(self, f: ConfigFlag) -> (r: bool)
        ensures
            r == self.has(f),
    {
        self.bits & f.bit() != 0
    }

    /// Folds the set to the native integer: the bitwise or of the members'
    /// reserved bits.
    pub fn bits(self) -> (b: u8)
        ensures
            b == self.spec_bits(),
    {
        self.bits
    }

    /// Decodes a native integer back to a flag set; an integer with a bit
    /// no known flag occupies yields nothing.
    pub fn from_bits(bits: u8) -> (r: Option<ConfigFlags>)
        ensures
            r == config_flags_of_bits(bits),
    {
        if bits & CONFIG_FLAGS_MASK == bits {
            Some(ConfigFlags { bits })
        } else {
            None
        }
    }
}

/// Folding a set of known window configuration flags to the native integer
/// and decoding that integer yields the set it started from.
pub proof fn lemma_config_flags_round_trip(s: ConfigFlags)
    requires
        s.wf(),
    ensures
        config_flags_of_bits(s.spec_bits()) == Some(s),
{
}

/// Decoding a native integer made only of known window configuration bits
/// and folding the set again yields the integer it started from.
pub proof fn lemma_config_bits_round_trip(bits: u8)
    requires
        bits & CONFIG_FLAGS_MASK == bits,
    ensures
        config_flags_of_bits(bits) == Some(ConfigFlags { bits }),
        (ConfigFlags { bits }).spec_bits() == bits,
{
}

/// Two well-formed flag sets with the same members are the same set: the
/// folded bit pattern is determined by membership alone.
pub proof fn lemma_config_flags_extensional(a: ConfigFlags, b: ConfigFlags)
    requires
        a.wf(),
        b.wf(),
        forall|f: ConfigFlag| a.has(f) == b.has(f),
    ensures
        a == b,
{
    let x = a.bits;
    let y = b.bits;
    assert(a.has(ConfigFlag::ShowLogo) == b.has(ConfigFlag::ShowLogo));
    assert(a.has(ConfigFlag::FullscreenMode) == b.has(ConfigFlag::FullscreenMode));
    assert(a.has(ConfigFlag::WindowResizable) == b.has(ConfigFlag::WindowResizable));
    assert(a.has(ConfigFlag::WindowUndecorated) == b.has(ConfigFlag::WindowUndecorated));
    assert(a.has(ConfigFlag::WindowTransparent) == b.has(ConfigFlag::WindowTransparent));
    assert(a.has(ConfigFlag::Msaa4xHint) == b.has(ConfigFlag::Msaa4xHint));
    assert(a.has(ConfigFlag::VsyncHint) == b.has(ConfigFlag::VsyncHint));
    assert(x == y) by (bit_vector)
        requires
            x & CONFIG_FLAGS_MASK == x,
            y & CONFIG_FLAGS_MASK == y,
            (x & 1 != 0) == (y & 1 != 0),
            (x & 2 != 0) == (y & 2 != 0),
            (x & 4 != 0) == (y & 4 != 0),
            (x & 8 != 0) == (y & 8 != 0),
            (x & 16 != 0) == (y & 16 != 0),
            (x & 32 != 0) == (y & 32 != 0),
            (x & 64 != 0) == (y & 64 != 0),
    ;
}

/// The empty set holds no flag.
pub proof fn lemma_config_flags_empty_members(f: ConfigFlag)
    ensures
        !(ConfigFlags { bits: 0 }).has(f),
{
    let b = config_flag_bit(f);
    assert(0u8 & b == 0) by (bit_vector);
}

/// The full set holds every flag.
pub proof fn lemma_config_flags_all_members(f: ConfigFlag)
    ensures
        (ConfigFlags { bits: CONFIG_FLAGS_MASK }).has(f),
{
    let b = config_flag_bit(f);
    assert(b == 1 || b == 2 || b == 4 || b == 8 || b == 16 || b == 32 || b == 64);
    assert(CONFIG_FLAGS_MASK & b != 0) by (bit_vector)
        requires
            b == 1 || b == 2 || b == 4 || b == 8 || b == 16 || b == 32 || b == 64,
    ;
}

/// Adding a flag to a set adds that flag and nothing else.
pub proof fn lemma_config_flags_with_members(s: ConfigFlags, f: ConfigFlag, g: ConfigFlag)
    ensures
        (ConfigFlags { bits: s.spec_bits() | config_flag_bit(f) }).has(g) == (s.has(g) || g
            == f),
{
    let x = s.bits;
    let fb = config_flag_bit(f);
    let gb = config_flag_bit(g);
    assert(fb == 1 || fb == 2 || fb == 4 || fb == 8 || fb == 16 || fb == 32 || fb == 64);
    assert(gb == 1 || gb == 2 || gb == 4 || gb == 8 || gb == 16 || gb == 32 || gb == 64);
    if f == g {
        assert((x | fb) & fb != 0) by (bit_vector)
            requires
                fb == 1 || fb == 2 || fb == 4 || fb == 8 || fb == 16 || fb == 32 || fb == 64,
        ;
    } else {
        assert(fb != gb);
        assert(((x | fb) & gb != 0) == (x & gb != 0)) by (bit_vector)
            requires
                fb != gb,
                fb == 1 || fb == 2 || fb == 4 || fb == 8 || fb == 16 || fb == 32 || fb == 64,
                gb == 1 || gb == 2 || gb == 4 || gb == 8 || gb == 16 || gb == 32 || gb == 64,
        ;
    }
}

/// Every window configuration flag's bit lies inside the known mask.
proof fn lemma_config_flag_bit_in_mask(f: ConfigFlag)
    ensures
        config_flag_bit(f) & CONFIG_FLAGS_MASK == config_flag_bit(f),
{
    let b = config_flag_bit(f);
    assert(b == 1 || b == 2 || b == 4 || b == 8 || b == 16 || b == 32 || b == 64);
    assert(b & CONFIG_FLAGS_MASK == b) by (bit_vector)
        requires
            b == 1 || b == 2 || b == 4 || b == 8 || b == 16 || b == 32 || b == 64,
    ;
}

/// Trace-log message types, one reserved bit each.
#[derive(Debug, Copy, Clone, PartialEq, Eq, Hash, Structural)]
pub enum LogType {
    Info,
    Warning,
    Error,
    Debug,
    Other,
}

/// Every bit a trace-log type can occupy.
pub const LOG_TYPES_MASK: u8 = 0x1F;

/// The reserved bit of each trace-log type.
pub open spec fn log_type_bit(t: LogType) -> u8 {
    match t {
        LogType::Info => 1,
        LogType::Warning => 2,
        LogType::Error => 4,
        LogType::Debug => 8,
        LogType::Other => 16,
    }
}

impl LogType {
    /// The reserved bit of this log type in the native integer.
    pub fn bit(self) -> (b: u8)
        ensures
            b == log_type_bit(self),
    {
        match self {
            LogType::Info => 1,
            LogType::Warning => 2,
            LogType::Error => 4,
            LogType::Debug => 8,
            LogType::Other => 16,
        }
    }

    /// The native integer a single log type is passed as when it stands
    /// alone, as in a trace-log call.
    pub fn to_raw(self) -> (v: i32)
        ensures
            v == log_type_bit(self) as i32,
    {
        self.bit() as i32
    }
}

/// A set of trace-log types, held as the bitwise or of the members'
/// reserved bits.
#[derive(Debug, Copy, Clone, PartialEq, Eq, Hash, Structural)]
pub struct LogTypes {
    /// The folded native integer: the bitwise or of the members' bits.
    pub bits: u8,
}

/// The log-type set a native integer decodes to: the set with exactly
/// those bits when every bit is a known type's, and nothing otherwise.
pub open spec fn log_types_of_bits(bits: u8) -> Option<LogTypes> {
    if bits & LOG_TYPES_MASK == bits {
        Some(LogTypes { bits })
    } else {
        None
    }
}

impl LogTypes {
    /// The set carries no bit outside the known log types.
    pub open spec fn wf(self) -> bool {
        self.bits & LOG_TYPES_MASK == self.bits
    }

    /// The native integer this set folds to.
    pub open spec fn spec_bits(self) -> u8 {
        self.bits
    }

    /// Whether the set holds the given log type.
    pub open spec fn has(self, t: LogType) -> bool {
        self.bits & log_type_bit(t) != 0
    }

    /// The set with no log type in it.
    pub fn empty() -> (s: LogTypes)
        ensures
            s.wf(),
            s.spec_bits() == 0,
    {
        proof {
            assert(0u8 & LOG_TYPES_MASK == 0u8) by (bit_vector);
        }
        LogTypes { bits: 0 }
    }

    /// The set with every known log type in it.
    pub fn all() -> (s: LogTypes)
        ensures
            s.wf(),
            s.spec_bits() == LOG_TYPES_MASK,
    {
        proof {
            assert(LOG_TYPES_MASK & LOG_TYPES_MASK == LOG_TYPES_MASK) by (bit_vector);
        }
        LogTypes { bits: LOG_TYPES_MASK }
    }

    /// This set with one more log type in it.
    pub fn with(self, t: LogType) -> (s: LogTypes)
        requires
            self.wf(),
        ensures
            s.wf(),
            s.spec_bits() == self.spec_bits() | log_type_bit(t),
    {
        proof {
            lemma_log_type_bit_in_mask(t);
            lemma_u8_or_stays_in_mask(self.bits, log_type_bit(t), LOG_TYPES_MASK);
        }
        LogTypes { bits: self.bits | t.bit() }
    }

    /// The union of two log-type sets.
    pub fn union(self, other: LogTypes) -> (s: LogTypes)
        requires
            self.wf(),
            other.wf(),
        ensures
            s.wf(),
            s.spec_bits() == self.spec_bits() | other.spec_bits(),
    {
        proof {
            lemma_u8_or_stays_in_mask(self.bits, other.bits, LOG_TYPES_MASK);
        }
        LogTypes { bits: self.bits | other.bits }
    }

    /// Whether the set holds the given log type.
    pub fn contains(self, t: LogType) -> (r: bool)
        ensures
            r == self.has(t),
    {
        self.bits & t.bit() != 0
    }

    /// Folds the set to the native integer: the bitwise or of the members'
    /// reserved bits.
    pub fn bits(self) -> (b: u8)
        ensures
            b == self.spec_bits(),
    {
        self.bits
    }

    /// Decodes a native integer back to a log-type set; an integer with a
    /// bit no known type occupies yields nothing.
    pub fn from_bits(bits: u8) -> (r: Option<LogTypes>)
        ensures
            r == log_types_of_bits(bits),
    {
        if bits & LOG_TYPES_MASK == bits {
            Some(LogTypes { bits })
        } else {
            None
        }
    }
}

/// Folding a set of known trace-log types to the native integer and
/// decoding that integer yields the set it started from.
pub proof fn lemma_log_types_round_trip(s: LogTypes)
    requires
        s.wf(),
    ensures
        log_types_of_bits(s.spec_bits()) == Some(s),
{
}

/// Decoding a native integer made only of known trace-log bits and folding
/// the set again yields the integer it started from.
pub proof fn lemma_log_bits_round_trip(bits: u8)
    requires
        bits & LOG_TYPES_MASK == bits,
    ensures
        log_types_of_bits(bits) == Some(LogTypes { bits }),
        (LogTypes { bits }).spec_bits() == bits,
{
}

/// Two well-formed log-type sets with the same members are the same set:
/// the folded bit pattern is determined by membership alone.
pub proof fn lemma_log_types_extensional(a: LogTypes, b: LogTypes)
    requires
        a.wf(),
        b.wf(),
        forall|t: LogType| a.has(t) == b.has(t),
    ensures
        a == b,
{
    let x = a.bits;
    let y = b.bits;
    assert(a.has(LogType::Info) == b.has(LogType::Info));
    assert(a.has(LogType::Warning) == b.has(LogType::Warning));
    assert(a.has(LogType::Error) == b.has(LogType::Error));
    assert(a.has(LogType::Debug) == b.has(LogType::Debug));
    assert(a.has(LogType::Other) == b.has(LogType::Other));
    assert(x == y) by (bit_vector)
        requires
            x & LOG_TYPES_MASK == x,
            y & LOG_TYPES_MASK == y,
            (x & 1 != 0) == (y & 1 != 0),
            (x & 2 != 0) == (y & 2 != 0),
            (x & 4 != 0) == (y & 4 != 0),
            (x & 8 != 0) == (y & 8 != 0),
            (x & 16 != 0) == (y & 16 != 0),
    ;
}

/// The empty set holds no log type.
pub proof fn lemma_log_types_empty_members(t: LogType)
    ensures
        !(LogTypes { bits: 0 }).has(t),
{
    let b = log_type_bit(t);
    assert(0u8 & b == 0) by (bit_vector);
}

/// The full set holds every log type.
pub proof fn lemma_log_types_all_members(t: LogType)
    ensures
        (LogTypes { bits: LOG_TYPES_MASK }).has(t),
{
    let b = log_type_bit(t);
    assert(b == 1 || b == 2 || b == 4 || b == 8 || b == 16);
    assert(LOG_TYPES_MASK & b != 0) by (bit_vector)
        requires
            b == 1 || b == 2 || b == 4 || b == 8 || b == 16,
    ;
}

/// Adding a log type to a set adds that type and nothing else.
pub proof fn lemma_log_types_with_members(s: LogTypes, t: LogType, u: LogType)
    ensures
        (LogTypes { bits: s.spec_bits() | log_type_bit(t) }).has(u) == (s.has(u) || u == t),
{
    let x = s.bits;
    let tb = log_type_bit(t);
    let ub = log_type_bit(u);
    assert(tb == 1 || tb == 2 || tb == 4 || tb == 8 || tb == 16);
    assert(ub == 1 || ub == 2 || ub == 4 || ub == 8 || ub == 16);
    if t == u {
        assert((x | tb) & tb != 0) by (bit_vector)
            requires
                tb == 1 || tb == 2 || tb == 4 || tb == 8 || tb == 16,
        ;
    } else {
        assert(tb != ub);
        assert(((x | tb) & ub != 0) == (x & ub != 0)) by (bit_vector)
            requires
                tb != ub,
                tb == 1 || tb == 2 || tb == 4 || tb == 8 || tb == 16,
                ub == 1 || ub == 2 || ub == 4 || ub == 8 || ub == 16,
        ;
    }
}

/// Every trace-log type's bit lies inside the known mask.
proof fn lemma_log_type_bit_in_mask(t: LogType)
    ensures
        log_type_bit(t) & LOG_TYPES_MASK == log_type_bit(t),
{
    let b = log_type_bit(t);
    assert(b == 1 || b == 2 || b == 4 || b == 8 || b == 16);
    assert(b & LOG_TYPES_MASK == b) by (bit_vector)
        requires
            b == 1 || b == 2 || b == 4 || b == 8 || b == 16,
    ;
}

/// Bits that each lie inside a mask still lie inside it after a bitwise or.
pub proof fn lemma_u8_or_stays_in_mask(x: u8, y: u8, m: u8)
    by (bit_vector)
    requires
        x & m == x,
        y & m == y,
    ensures
        (x | y) & m == (x | y),
{
}

} // verus!
