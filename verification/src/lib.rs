//! Time-representation configuration for a cache server.
//!
//! A cache server must interpret the timestamps it stores and compares under
//! exactly one convention, chosen at configuration-load time and fixed for the
//! lifetime of the process. This crate defines that choice: the closed set of
//! supported conventions ([`TimeType`]), its stable wire encodings (a fixed
//! ordinal and a fixed token per variant), and the configuration record
//! ([`TimeConfig`]) that holds the resolved choice, defaulting to
//! [`TimeType::Unix`] whenever the surrounding configuration document omits
//! the field.
//!
//! Parsing of the configuration document itself belongs to the surrounding
//! loader; this crate only decodes the field's value (ordinal or token),
//! resolves its absence to the default, and exposes the resolved mode.

use vstd::prelude::*;

verus! {

use vstd::string::StrSliceExecFns;

/// The supported time-representation modes: how timestamp integers stored or
/// transmitted by the cache are to be interpreted.
///
/// The set is closed and each variant carries a fixed ordinal (see
/// [`spec_ordinal`]) that persisted and transmitted configuration data relies
/// on; the numbering must never change.
#[derive(Copy, Clone, Debug, PartialEq, Eq, Structural)]
pub enum TimeType {
    /// Timestamps are absolute Unix epoch seconds (ordinal 0).
    Unix,
    /// Timestamps are offsets from a reference epoch defined elsewhere
    /// (ordinal 1).
    Delta,
    /// Timestamps follow the legacy memcache convention: small values are
    /// deltas, large values absolute epoch seconds (ordinal 2).
    Memcache,
    /// Reserved terminal marker with no operational time semantics
    /// (ordinal 3).
    Sentinel,
}

/// The error raised when a configuration document carries a `time_type`
/// value outside the four recognized ordinals or tokens.
///
/// An absent field is not an error (it resolves to the default); only an
/// invalid present value is.
#[derive(Copy, Clone, Debug, PartialEq, Eq, Structural)]
pub struct InvalidTimeTypeValue;

/// The fixed ordinal of each mode. This numbering is part of the external
/// contract with persisted and transmitted configuration data.
pub open spec fn spec_ordinal(t: TimeType) -> nat {
    match t {
        TimeType::Unix => 0,
        TimeType::Delta => 1,
        TimeType::Memcache => 2,
        TimeType::Sentinel => 3,
    }
}

/// The mode a given ordinal decodes to, or `None` when the ordinal is outside
/// the recognized range.
pub open spec fn spec_of_ordinal(o: nat) -> Option<TimeType> {
    if o == 0 {
        Some(TimeType::Unix)
    } else if o == 1 {
        Some(TimeType::Delta)
    } else if o == 2 {
        Some(TimeType::Memcache)
    } else if o == 3 {
        Some(TimeType::Sentinel)
    } else {
        None
    }
}

/// The fixed token of each mode, used where a configuration document spells
/// the mode out rather than storing its ordinal.
pub open spec fn spec_token(t: TimeType) -> Seq<char> {
    match t {
        TimeType::Unix => "Unix"@,
        TimeType::Delta => "Delta"@,
        TimeType::Memcache => "Memcache"@,
        TimeType::Sentinel => "Sentinel"@,
    }
}

/// The mode a given token decodes to, or `None` when the token is not one of
/// the four recognized spellings.
pub open spec fn spec_of_token(s: Seq<char>) -> Option<TimeType> {
    if s == "Unix"@ {
        Some(TimeType::Unix)
    } else if s == "Delta"@ {
        Some(TimeType::Delta)
    } else if s == "Memcache"@ {
        Some(TimeType::Memcache)
    } else if s == "Sentinel"@ {
        Some(TimeType::Sentinel)
    } else {
        None
    }
}

/// The default mode, used whenever a configuration document omits the field.
pub open spec fn spec_default_time_type() -> TimeType {
    TimeType::Unix
}

/// What an optional `time_type` document field resolves to: its value when
/// present, the default mode when absent.
pub open spec fn spec_resolve_time_type(field: Option<TimeType>) -> TimeType {
    match field {
        Some(t) => t,
        None => spec_default_time_type(),
    }
}

/// Field-level default provider for `time_type`: the value the field takes
/// when the configuration document omits it.
fn time_type() -> (r: TimeType)
    ensures
        r == spec_default_time_type(),
{
    TimeType::Unix
}

impl TimeType {
    /// The fixed ordinal under which this mode is persisted or transmitted.
    pub fn ordinal(&self) -> (r: u8)
        ensures
            r as nat == spec_ordinal(*self),
    {
        match self {
            TimeType::Unix => 0,
            TimeType::Delta => 1,
            TimeType::Memcache => 2,
            TimeType::Sentinel => 3,
        }
    }

    /// Decodes an ordinal read from a configuration document. Exactly the
    /// ordinals 0 through 3 decode; anything else is an invalid value, never
    /// silently replaced by the default.
    pub fn from_ordinal(o: u8) -> (r: Result<TimeType, InvalidTimeTypeValue>)
        ensures
            match spec_of_ordinal(o as nat) {
                Some(t) => r == Ok::<TimeType, InvalidTimeTypeValue>(t),
                None => r == Err::<TimeType, InvalidTimeTypeValue>(InvalidTimeTypeValue),
            },
    {
        match o {
            0 => Ok(TimeType::Unix),
            1 => Ok(TimeType::Delta),
            2 => Ok(TimeType::Memcache),
            3 => Ok(TimeType::Sentinel),
            _ => Err(InvalidTimeTypeValue),
        }
    }

    /// The fixed token under which this mode is spelled out in a
    /// configuration document.
    pub fn token(&self) -> (r: &'static str)
        ensures
            r@ == spec_token(*self),
    {
        match self {
            TimeType::Unix => "Unix",
            TimeType::Delta => "Delta",
            TimeType::Memcache => "Memcache",
            TimeType::Sentinel => "Sentinel",
        }
    }

    /// Decodes a token read from a configuration document. Exactly the four
    /// recognized spellings decode; anything else is an invalid value, never
    /// silently replaced by the default.
    pub fn from_token(s: &str) -> (r: Result<TimeType, InvalidTimeTypeValue>)
        ensures
            match spec_of_token(s@) {
                Some(t) => r == Ok::<TimeType, InvalidTimeTypeValue>(t),
                None => r == Err::<TimeType, InvalidTimeTypeValue>(InvalidTimeTypeValue),
            },
    {
        if str_eq(s, "Unix") {
            Ok(TimeType::Unix)
        } else if str_eq(s, "Delta") {
            Ok(TimeType::Delta)
        } else if str_eq(s, "Memcache") {
            Ok(TimeType::Memcache)
        } else if str_eq(s, "Sentinel") {
            Ok(TimeType::Sentinel)
        } else {
            Err(InvalidTimeTypeValue)
        }
    }
}

/// Character-for-character equality of two string slices.
fn str_eq(a: &str, b: &str) -> (r: bool)
    ensures
        r == (a@ == b@),
{
    let a_len = a.unicode_len();
    let b_len = b.unicode_len();
    if a_len != b_len {
        return false;
    }
    let mut i: usize = 0;
    while i < a_len
        invariant
            a@.len() == a_len,
            b@.len() == b_len,
            a_len == b_len,
            i <= a_len,
            forall|j: int| 0 <= j < i ==> a@[j] == b@[j],
        decreases a_len - i,
    {
        if a.get_char(i) != b.get_char(i) {
            return false;
        }
        i = i + 1;
    }
    proof {
        assert(a@ =~= b@);
    }
    true
}

/// The configuration record holding the resolved time-representation mode.
///
/// It is constructed exactly once, at configuration-load time — either from a
/// document's optional `time_type` field or by default construction — and is
/// immutable thereafter: no mutating operation is exposed.
#[derive(Debug)]
pub struct TimeConfig {
    time_type: TimeType,
}

impl TimeConfig {
    /// The mode this configuration holds.
    pub closed spec fn spec_time_type(self) -> TimeType {
        self.time_type
    }

    /// Builds the configuration from a document's optional `time_type` field:
    /// the field's value when the document carries one, the default mode when
    /// the document omits the field. Defaulting is applied at the field level,
    /// so a partially specified document resolves exactly as an absent one.
    pub fn from_document_field(field: Option<TimeType>) -> (r: TimeConfig)
        ensures
            r.spec_time_type() == spec_resolve_time_type(field),
    {
        match field {
            Some(t) => TimeConfig { time_type: t },
            None => TimeConfig { time_type: time_type() },
        }
    }

    /// The resolved time-representation mode: a copyable, side-effect-free
    /// read, the one interface the surrounding subsystems consume.
    pub fn time_type(&self) -> (r: TimeType)
        ensures
            r == self.spec_time_type(),
    {
        self.time_type
    }
}

impl Default for TimeConfig {
    /// Default construction, for when no configuration document is supplied
    /// at all; it resolves to the same mode as a document that omits the
    /// field.
    fn default() -> (r: TimeConfig)
        ensures
            r.spec_time_type() == spec_default_time_type(),
    {
        TimeConfig { time_type: time_type() }
    }
}

/// Round-trip law for ordinals: encoding any mode and decoding the ordinal
/// reproduces the identical mode.
pub proof fn lemma_ordinal_round_trip(t: TimeType)
    ensures
        spec_of_ordinal(spec_ordinal(t)) == Some(t),
{
}

/// Round-trip law for tokens: encoding any mode and decoding the token
/// reproduces the identical mode.
pub proof fn lemma_token_round_trip(t: TimeType)
    ensures
        spec_of_token(spec_token(t)) == Some(t),
{
    reveal_strlit("Unix");
    reveal_strlit("Delta");
    reveal_strlit("Memcache");
    reveal_strlit("Sentinel");
    assert("Unix"@.len() == 4);
    assert("Delta"@.len() == 5);
    assert("Memcache"@.len() == 8);
    assert("Sentinel"@.len() == 8);
    assert("Memcache"@[0] == 'M');
    assert("Sentinel"@[0] == 'S');
}

/// Non-divergence law: the "no document at all" path and the "document
/// present but field omitted" path resolve to the identical mode.
pub proof fn lemma_default_paths_agree()
    ensures
        spec_resolve_time_type(None) == spec_default_time_type(),
{
}

/// Ordinal-stability law: the numbering `Unix = 0`, `Delta = 1`,
/// `Memcache = 2`, `Sentinel = 3` is fixed, preserving interoperability with
/// existing persisted and transmitted configuration data.
pub proof fn lemma_ordinal_values()
    ensures
        spec_ordinal(TimeType::Unix) == 0,
        spec_ordinal(TimeType::Delta) == 1,
        spec_ordinal(TimeType::Memcache) == 2,
        spec_ordinal(TimeType::Sentinel) == 3,
{
}

} // verus!
