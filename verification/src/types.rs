//! The sample point, and the configuration the engine is built from.

use vstd::prelude::*;
use vstd::string::StringExecFns;

use crate::constants::{NORMAL_WIDTH, SCALE};
use crate::text::{parse_px, sp_all_digits, sp_int_val, str_eq};

verus! {

/// One sample of the wave: a fixed-point position `x` in the nominal
/// 0..=NORMAL_WIDTH domain and a fixed-point noise amplitude `y`,
/// nominally in -1..=1.
#[derive(Clone, Copy, PartialEq, Eq, Structural, Debug)]
pub struct Point {
    pub x: i64,
    pub y: i64,
}

impl Point {
    /// The invariant every point of a generated set satisfies.
    pub open spec fn wf(&self) -> bool {
        &&& 0 <= self.x <= NORMAL_WIDTH
        &&& -SCALE <= self.y <= SCALE
    }

    /// Maps both coordinates from the -1..=1 noise range into 0..=1,
    /// for the radial render path.
    pub fn normalize(&self) -> (p: Point)
        requires
            -SCALE <= self.x,
            self.x <= NORMAL_WIDTH,
            -SCALE <= self.y <= SCALE,
        ensures
            p.x == (self.x + SCALE) as int / 2,
            p.y == (self.y + SCALE) as int / 2,
            0 <= p.y <= SCALE,
    {
        Point { x: (self.x + SCALE) / 2, y: (self.y + SCALE) / 2 }
    }
}

/// A configuration error, surfaced at construction and never at frame
/// time.
#[derive(PartialEq, Debug)]
pub enum ConfigError {
    /// A required field is absent from a panel's settings.
    MissingField { key: String },
    /// A dimension field is present but is no whole pixel count
    /// between 1 and 10 000.
    InvalidNumber { key: String },
    /// The panel identifier names no known panel kind.
    UnknownPanel { id: String },
}

impl ConfigError {
    /// A human-readable description of the error.
    pub fn message(&self) -> (m: String)
        ensures
            self matches ConfigError::MissingField { key } ==> m@ == "Failed to get: "@ + key@,
            self matches ConfigError::InvalidNumber { key } ==> m@ == "Failed to parse: "@ + key@,
            self matches ConfigError::UnknownPanel { id } ==> m@ == "No such panel: "@ + id@,
    {
        match self {
            ConfigError::MissingField { key } => {
                let mut m = "Failed to get: ".to_owned();
                m.append(key.as_str());
                m
            },
            ConfigError::InvalidNumber { key } => {
                let mut m = "Failed to parse: ".to_owned();
                m.append(key.as_str());
                m
            },
            ConfigError::UnknownPanel { id } => {
                let mut m = "No such panel: ".to_owned();
                m.append(id.as_str());
                m
            },
        }
    }
}

/// The value stored under the first occurrence of `key`, if any.
pub open spec fn sp_lookup(entries: Seq<(String, String)>, key: Seq<char>) -> Option<Seq<char>>
    decreases entries.len(),
{
    if entries.len() == 0 {
        None
    } else if entries[0].0@ == key {
        Some(entries[0].1@)
    } else {
        sp_lookup(entries.drop_first(), key)
    }
}

/// When none of the first `i` keys is `key`, the lookup is decided by
/// the remaining entries.
pub proof fn lemma_lookup_after_misses(entries: Seq<(String, String)>, key: Seq<char>, i: int)
    requires
        0 <= i <= entries.len(),
        forall|j: int| 0 <= j < i ==> (#[trigger] entries[j]).0@ != key,
    ensures
        sp_lookup(entries, key) == sp_lookup(entries.skip(i), key),
    decreases i,
{
    if i > 0 {
        lemma_lookup_after_misses(entries, key, i - 1);
        assert(entries.skip(i - 1).len() > 0);
        assert(entries.skip(i - 1)[0] == entries[i - 1]);
        assert(entries[i - 1].0@ != key);
        assert(entries.skip(i - 1).drop_first() =~= entries.skip(i));
        assert(sp_lookup(entries.skip(i - 1), key) == sp_lookup(
            entries.skip(i - 1).drop_first(),
            key,
        ));
    } else {
        assert(entries.skip(0) =~= entries);
    }
}

/// True when the string names a valid panel dimension: all decimal
/// digits, between 1 and 10 000 whole pixels.
pub open spec fn sp_px_ok(s: Seq<char>) -> bool {
    s.len() > 0 && sp_all_digits(s) && 1 <= sp_int_val(s) <= 10_000
}

/// The fixed-point value of a valid dimension string.
pub open spec fn sp_px_val(s: Seq<char>) -> int {
    sp_int_val(s) * SCALE
}

/// One panel's raw settings: key-value pairs as the host hands them
/// over, the first occurrence of a key winning.
pub struct PanelSettings {
    /// The raw key-value pairs.
    pub entries: Vec<(String, String)>,
}

impl PanelSettings {
    /// The value under `key`, or the missing-field error naming it.
    pub fn ok(&self, key: &str) -> (r: Result<String, ConfigError>)
        ensures
            r matches Ok(v) ==> sp_lookup(self.entries@, key@) == Some(v@),
            r matches Err(e) ==> {
                &&& sp_lookup(self.entries@, key@) is None
                &&& e matches ConfigError::MissingField { key: k } && k@ == key@
            },
    {
        let n = self.entries.len();
        let mut i: usize = 0;
        while i < n
            invariant
                0 <= i <= n,
                n == self.entries@.len(),
                forall|j: int| 0 <= j < i ==> (#[trigger] self.entries@[j]).0@ != key@,
            decreases n - i,
        {
            let pair = &self.entries[i];
            if str_eq(pair.0.as_str(), key) {
                proof {
                    lemma_lookup_after_misses(self.entries@, key@, i as int);
                    assert(self.entries@.skip(i as int)[0] == self.entries@[i as int]);
                }
                return Ok(pair.1.clone());
            }
            i = i + 1;
        }
        proof {
            lemma_lookup_after_misses(self.entries@, key@, n as int);
            assert(self.entries@.skip(n as int).len() == 0);
        }
        Err(ConfigError::MissingField { key: key.to_owned() })
    }

    /// The dimension under `key` in fixed-point pixels, or the error
    /// that names the missing or malformed field.
    pub fn ok_px(&self, key: &str) -> (r: Result<i64, ConfigError>)
        ensures
            r matches Ok(v) ==> {
                &&& sp_lookup(self.entries@, key@) matches Some(s) && sp_px_ok(s) && v
                    == sp_px_val(s)
            },
            r matches Err(e) ==> match e {
                ConfigError::MissingField { key: k } => k@ == key@ && sp_lookup(
                    self.entries@,
                    key@,
                ) is None,
                ConfigError::InvalidNumber { key: k } => k@ == key@ && (sp_lookup(
                    self.entries@,
                    key@,
                ) matches Some(s) && !sp_px_ok(s)),
                ConfigError::UnknownPanel { .. } => false,
            },
    {
        let raw = match self.ok(key) {
            Ok(v) => v,
            Err(e) => {
                return Err(e);
            },
        };
        match parse_px(raw.as_str()) {
            Some(px) => Ok(px),
            None => Err(ConfigError::InvalidNumber { key: key.to_owned() }),
        }
    }
}

/// The whole configuration: the shared background color and the raw
/// settings of each panel, in display order.
pub struct Config {
    /// Background color shared by all panels.
    pub bgcolor: String,
    /// Per-panel settings.
    pub panels: Vec<PanelSettings>,
}

} // verus!
