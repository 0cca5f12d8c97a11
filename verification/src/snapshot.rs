//! Status snapshots and the extraction of the modem's reported state.
//!
//! A status query returns a mapping from property name to value; the only
//! property the supervisor consumes is `"state"`, expected to hold an
//! unsigned integer. A missing key, a value of the wrong type, or an
//! undecodable code all yield "no known state" rather than an error, so that
//! partial telemetry never kills the polling loop.

use vstd::prelude::*;

use crate::codec::{spec_decode_state, decode_state, ModemState};

verus! {

/// A property value as the supervisor sees it: either an unsigned integer
/// or something it does not read.
#[derive(Clone, Copy, Debug, PartialEq, Eq, Structural)]
pub enum PropertyValue {
    /// The value held an unsigned integer.
    Number(u32),
    /// The value was present but held no unsigned integer.
    Other,
}

/// A status snapshot: named properties, as returned by one status query.
#[derive(Debug)]
pub struct StatusSnapshot {
    pub properties: Vec<(String, PropertyValue)>,
}

/// The value of the first property carrying `key`, if any.
pub open spec fn spec_lookup(props: Seq<(String, PropertyValue)>, key: Seq<char>) -> Option<
    PropertyValue,
>
    decreases props.len(),
{
    if props.len() == 0 {
        None
    } else if props[0].0@ == key {
        Some(props[0].1)
    } else {
        spec_lookup(props.drop_first(), key)
    }
}

/// The state a snapshot reports: the decoded `"state"` property, or `None`
/// when the key is missing, non-numeric or undecodable.
pub open spec fn spec_extract_state(s: StatusSnapshot) -> Option<ModemState> {
    match spec_lookup(s.properties@, "state"@) {
        Some(PropertyValue::Number(code)) => spec_decode_state(code as int),
        _ => None,
    }
}

impl StatusSnapshot {
    /// An empty snapshot, reporting no properties at all.
    pub fn new() -> (s: StatusSnapshot)
        ensures
            s.properties@ =~= Seq::<(String, PropertyValue)>::empty(),
    {
        StatusSnapshot { properties: Vec::new() }
    }

    /// Appends one property to the snapshot.
    pub fn push(&mut self, name: String, value: PropertyValue)
        ensures
            final(self).properties@ =~= old(self).properties@.push((name, value)),
    {
        self.properties.push((name, value));
    }
}

/// Reads the modem state out of a snapshot. Never fails: a snapshot without
/// a usable `"state"` property yields `None`, not an error.
pub fn extract_state(status: &StatusSnapshot) -> (r: Option<ModemState>)
    ensures
        r == spec_extract_state(*status),
{
    let key: String = "state".to_owned();
    let n = status.properties.len();
    let mut i: usize = 0;
    proof {
        assert(status.properties@.subrange(0, n as int) =~= status.properties@);
    }
    while i < n
        invariant
            n == status.properties@.len(),
            i <= n,
            key@ == "state"@,
            spec_lookup(status.properties@, "state"@) == spec_lookup(
                status.properties@.subrange(i as int, n as int),
                "state"@,
            ),
        decreases n - i,
    {
        let entry = &status.properties[i];
        proof {
            let suffix = status.properties@.subrange(i as int, n as int);
            assert(suffix[0] == status.properties@[i as int]);
            assert(suffix.drop_first() =~= status.properties@.subrange(i as int + 1, n as int));
        }
        if entry.0 == key {
            match entry.1 {
                PropertyValue::Number(code) => {
                    if code <= 11 {
                        match decode_state(code as i32) {
                            Ok(state) => {
                                return Some(state);
                            },
                            Err(_) => {
                                return None;
                            },
                        }
                    } else {
                        return None;
                    }
                },
                PropertyValue::Other => {
                    return None;
                },
            }
        }
        i = i + 1;
    }
    None
}

} // verus!
