//! What the operator can set.

use crate::time_types::{NtpDuration, PollInterval, PollIntervalLimits, PANIC_THRESHOLD};
use vstd::prelude::*;

verus! {

/// Half an hour: the most that startup moves the clock backward where the
/// configuration file names no limit.
pub const STARTUP_BACKWARD_LIMIT: i64 = 1800 * 0x1_0000_0000;

/// The largest change of the clock that is accepted in one go, set apart
/// for the two directions. `None` stands for no limit.
#[derive(Debug, Copy, Clone, PartialEq, Eq, Structural)]
pub struct StepThreshold {
    pub forward: Option<NtpDuration>,
    pub backward: Option<NtpDuration>,
}

impl StepThreshold {
    /// Whether `offset` lies beyond the limit of its direction: a positive
    /// offset moves the clock forward, a negative one backward.
    pub open spec fn spec_exceeded_by(self, offset: NtpDuration) -> bool {
        if offset.duration >= 0 {
            match self.forward {
                Some(limit) => offset.duration > limit.duration,
                None => false,
            }
        } else {
            match self.backward {
                Some(limit) => -offset.duration > limit.duration,
                None => false,
            }
        }
    }

    pub fn exceeded_by(&self, offset: NtpDuration) -> (r: bool)
        ensures
            r == self.spec_exceeded_by(offset),
    {
        if offset.duration >= 0 {
            match self.forward {
                Some(limit) => offset.duration > limit.duration,
                None => false,
            }
        } else {
            match self.backward {
                Some(limit) => -(offset.duration as i128) > limit.duration as i128,
                None => false,
            }
        }
    }
}

impl Default for StepThreshold {
    fn default() -> (r: StepThreshold)
        ensures
            r == (StepThreshold { forward: None, backward: None }),
    {
        StepThreshold { forward: None, backward: None }
    }
}

#[derive(Debug, Copy, Clone, PartialEq, Eq, Structural)]
pub struct SystemConfig {
    /// Minimum number of survivors needed to discipline the system clock.
    pub min_intersection_survivors: usize,
    /// The largest change of the clock accepted outside startup.
    pub panic_threshold: StepThreshold,
    /// The largest change of the clock accepted during startup.
    pub startup_panic_threshold: StepThreshold,
    /// The largest total of all steps but those of startup; `None` for no
    /// limit.
    pub accumulated_threshold: Option<NtpDuration>,
    /// Stratum of the local clock while it is not synchronised.
    pub local_stratum: u8,
    /// Bounds of the poll interval of an association.
    pub poll_limits: PollIntervalLimits,
    /// Poll interval that the system starts with.
    pub initial_poll: PollInterval,
}

pub open spec fn spec_default_panic_threshold() -> StepThreshold {
    StepThreshold {
        forward: Some(NtpDuration { duration: PANIC_THRESHOLD }),
        backward: Some(NtpDuration { duration: PANIC_THRESHOLD }),
    }
}

impl SystemConfig {
    pub open spec fn spec_default() -> SystemConfig {
        SystemConfig {
            min_intersection_survivors: 3,
            panic_threshold: spec_default_panic_threshold(),
            startup_panic_threshold: StepThreshold { forward: None, backward: None },
            accumulated_threshold: None,
            local_stratum: 16,
            poll_limits: PollIntervalLimits {
                min: PollInterval { log: 4 },
                max: PollInterval { log: 10 },
            },
            initial_poll: PollInterval { log: 4 },
        }
    }
}

impl Default for SystemConfig {
    fn default() -> (r: SystemConfig)
        ensures
            r == SystemConfig::spec_default(),
    {
        SystemConfig {
            min_intersection_survivors: default_min_intersection_survivors(),
            panic_threshold: default_panic_threshold(),
            startup_panic_threshold: StepThreshold::default(),
            accumulated_threshold: None,
            local_stratum: default_local_stratum(),
            poll_limits: PollIntervalLimits::default(),
            initial_poll: default_initial_poll(),
        }
    }
}

pub fn default_min_intersection_survivors() -> (r: usize)
    ensures
        r == 3,
{
    3
}

/// A thousand seconds in either direction.
pub fn default_panic_threshold() -> (r: StepThreshold)
    ensures
        r == spec_default_panic_threshold(),
{
    let raw = NtpDuration::from_seconds(1000);
    StepThreshold { forward: Some(raw), backward: Some(raw) }
}

/// The startup limit of a configuration that names none: no limit forward,
/// half an hour backward.
pub fn startup_panic_threshold() -> (r: StepThreshold)
    ensures
        r == (StepThreshold {
            forward: None,
            backward: Some(NtpDuration { duration: STARTUP_BACKWARD_LIMIT }),
        }),
{
    StepThreshold { forward: None, backward: Some(NtpDuration::from_seconds(1800)) }
}

pub fn default_local_stratum() -> (r: u8)
    ensures
        r == 16,
{
    16
}

pub fn default_initial_poll() -> (r: PollInterval)
    ensures
        r.log == 4,
{
    PollIntervalLimits::default().min
}

/// A scalar as a configuration file holds it where a limit is expected.
#[derive(Debug, Clone, PartialEq, Eq)]
pub enum ThresholdValue {
    Number(NtpDuration),
    Text(String),
}

/// One entry of a table that names the two directions apart.
#[derive(Debug, Clone, PartialEq, Eq)]
pub struct ThresholdField {
    pub key: String,
    pub value: ThresholdValue,
}

/// Why a limit could not be read. The number is the place of the
/// offending entry in the table.
#[derive(Debug, Copy, Clone, PartialEq, Eq, Structural)]
pub enum ThresholdError {
    /// A text other than "inf" in place of the limit.
    InvalidValue,
    /// A text other than "inf" as the value of an entry.
    InvalidField(usize),
    /// A direction named a second time.
    DuplicateField(usize),
    /// A key that is neither "forward" nor "backward".
    UnknownField(usize),
}

/// The limit of one direction: `None` for no limit.
#[derive(Debug, Copy, Clone, PartialEq, Eq, Structural)]
pub struct ThresholdPart(pub Option<NtpDuration>);

/// The limits of the two directions as far as a table has named them.
#[derive(Debug, Copy, Clone, PartialEq, Eq, Structural)]
pub struct PartialThreshold {
    pub forward: Option<ThresholdPart>,
    pub backward: Option<ThresholdPart>,
}

fn text_is(text: &String, word: &str) -> (r: bool)
    ensures
        r == (text@ == word@),
{
    let owned = word.to_owned();
    *text == owned
}

impl ThresholdPart {
    /// A number is a limit and "inf" is no limit; any other text is not a
    /// limit at all.
    pub open spec fn spec_from_value(value: ThresholdValue) -> Option<ThresholdPart> {
        match value {
            ThresholdValue::Number(limit) => Some(ThresholdPart(Some(limit))),
            ThresholdValue::Text(text) => if text@ == "inf"@ {
                Some(ThresholdPart(None))
            } else {
                None
            },
        }
    }

    pub fn from_value(value: &ThresholdValue) -> (r: Result<ThresholdPart, ThresholdError>)
        ensures
            match Self::spec_from_value(*value) {
                Some(part) => r == Ok::<ThresholdPart, ThresholdError>(part),
                None => r == Err::<ThresholdPart, ThresholdError>(ThresholdError::InvalidValue),
            },
    {
        match value {
            ThresholdValue::Number(limit) => Ok(ThresholdPart(Some(*limit))),
            ThresholdValue::Text(text) => {
                if text_is(text, "inf") {
                    Ok(ThresholdPart(None))
                } else {
                    Err(ThresholdError::InvalidValue)
                }
            },
        }
    }
}

impl PartialThreshold {
    /// What the first `n` entries of `fields` name, or the first fault
    /// among them.
    pub open spec fn scan(fields: Seq<ThresholdField>, n: nat) -> Result<
        PartialThreshold,
        ThresholdError,
    >
        decreases n,
    {
        if n == 0 {
            Ok(PartialThreshold { forward: None, backward: None })
        } else {
            match Self::scan(fields, (n - 1) as nat) {
                Err(e) => Err(e),
                Ok(seen) => {
                    let at = (n - 1) as usize;
                    let field = fields[n - 1];
                    let part = ThresholdPart::spec_from_value(field.value);
                    if field.key@ == "forward"@ {
                        if seen.forward is Some {
                            Err(ThresholdError::DuplicateField(at))
                        } else if part is None {
                            Err(ThresholdError::InvalidField(at))
                        } else {
                            Ok(PartialThreshold { forward: part, ..seen })
                        }
                    } else if field.key@ == "backward"@ {
                        if seen.backward is Some {
                            Err(ThresholdError::DuplicateField(at))
                        } else if part is None {
                            Err(ThresholdError::InvalidField(at))
                        } else {
                            Ok(PartialThreshold { backward: part, ..seen })
                        }
                    } else {
                        Err(ThresholdError::UnknownField(at))
                    }
                },
            }
        }
    }

    /// The limits with every direction that was not named left open.
    pub open spec fn finish(self) -> StepThreshold {
        StepThreshold {
            forward: match self.forward {
                Some(part) => part.0,
                None => None,
            },
            backward: match self.backward {
                Some(part) => part.0,
                None => None,
            },
        }
    }
}

impl StepThreshold {
    /// One scalar sets both directions alike.
    pub open spec fn spec_from_value(value: ThresholdValue) -> Option<StepThreshold> {
        match ThresholdPart::spec_from_value(value) {
            Some(part) => Some(StepThreshold { forward: part.0, backward: part.0 }),
            None => None,
        }
    }

    /// The limits that one scalar stands for: a number for both
    /// directions, "inf" for none.
    pub fn from_value(value: &ThresholdValue) -> (r: Result<StepThreshold, ThresholdError>)
        ensures
            match Self::spec_from_value(*value) {
                Some(limits) => r == Ok::<StepThreshold, ThresholdError>(limits),
                None => r == Err::<StepThreshold, ThresholdError>(ThresholdError::InvalidValue),
            },
    {
        match ThresholdPart::from_value(value) {
            Ok(part) => Ok(StepThreshold { forward: part.0, backward: part.0 }),
            Err(e) => Err(e),
        }
    }

    pub open spec fn spec_from_fields(fields: Seq<ThresholdField>) -> Result<
        StepThreshold,
        ThresholdError,
    > {
        match PartialThreshold::scan(fields, fields.len()) {
            Ok(seen) => Ok(seen.finish()),
            Err(e) => Err(e),
        }
    }

    /// The limits that a table stands for. Its entries are read in order
    /// and the first fault ends the reading: a key other than "forward"
    /// and "backward", a direction named twice, or a value that is no
    /// limit. A direction that the table leaves out has no limit.
    #[verifier::rlimit(50)]
    pub fn from_fields(fields: &Vec<ThresholdField>) -> (r: Result<StepThreshold, ThresholdError>)
        ensures
            r == Self::spec_from_fields(fields@),
    {
        let mut seen = PartialThreshold { forward: None, backward: None };
        let mut i: usize = 0;
        while i < fields.len()
            invariant
                0 <= i <= fields.len(),
                PartialThreshold::scan(fields@, i as nat) == Ok::<
                    PartialThreshold,
                    ThresholdError,
                >(seen),
            decreases fields.len() - i,
        {
            let field = &fields[i];
            let forward = text_is(&field.key, "forward");
            let backward = text_is(&field.key, "backward");
            if forward {
                if seen.forward.is_some() {
                    proof {
                        lemma_scan_fault_stays(fields@, (i + 1) as nat, fields@.len());
                    }
                    return Err(ThresholdError::DuplicateField(i));
                }
                match ThresholdPart::from_value(&field.value) {
                    Ok(part) => {
                        seen.forward = Some(part);
                    },
                    Err(_) => {
                        proof {
                            lemma_scan_fault_stays(fields@, (i + 1) as nat, fields@.len());
                        }
                        return Err(ThresholdError::InvalidField(i));
                    },
                }
            } else if backward {
                if seen.backward.is_some() {
                    proof {
                        lemma_scan_fault_stays(fields@, (i + 1) as nat, fields@.len());
                    }
                    return Err(ThresholdError::DuplicateField(i));
                }
                match ThresholdPart::from_value(&field.value) {
                    Ok(part) => {
                        seen.backward = Some(part);
                    },
                    Err(_) => {
                        proof {
                            lemma_scan_fault_stays(fields@, (i + 1) as nat, fields@.len());
                        }
                        return Err(ThresholdError::InvalidField(i));
                    },
                }
            } else {
                proof {
                    lemma_scan_fault_stays(fields@, (i + 1) as nat, fields@.len());
                }
                return Err(ThresholdError::UnknownField(i));
            }
            i = i + 1;
        }
        Ok(
            StepThreshold {
                forward: match seen.forward {
                    Some(part) => part.0,
                    None => None,
                },
                backward: match seen.backward {
                    Some(part) => part.0,
                    None => None,
                },
            },
        )
    }
}

/// A fault found among the first `n` entries is the fault of every longer
/// reading.
pub proof fn lemma_scan_fault_stays(fields: Seq<ThresholdField>, n: nat, m: nat)
    requires
        n <= m,
        PartialThreshold::scan(fields, n) is Err,
    ensures
        PartialThreshold::scan(fields, m) == PartialThreshold::scan(fields, n),
    decreases m,
{
    if n < m {
        lemma_scan_fault_stays(fields, n, (m - 1) as nat);
    }
}

/// The accumulated limit that a span stands for: a span of zero is no
/// limit.
pub fn accumulated_threshold_from(span: NtpDuration) -> (r: Option<NtpDuration>)
    ensures
        span.duration == 0 ==> r is None,
        span.duration != 0 ==> r == Some(span),
{
    if span.duration == 0 {
        None
    } else {
        Some(span)
    }
}

} // verus!
