//! Helpers for tests: where temporary files go, and predictable identifiers.
use vstd::prelude::*;

use crate::text::{concat, decimal, decimal_string};

verus! {

/// The variable that overrides the temporary root of tests.
pub const TEST_TEMP_DIR_ENV: &'static str = "AGENTNOTIFY_TEST_TEMP_DIR";

/// The local convention: temporary files on drive D, used only when the directory exists.
pub const PREFERRED_TEMP_ROOT: &'static str = "D:\\Temp";

pub open spec fn temp_root_spec(override_dir: Option<Seq<char>>, preferred_available: bool, system_temp: Seq<char>) -> Seq<char> {
    match override_dir {
        Some(d) => if d.len() > 0 {
            d
        } else if preferred_available {
            PREFERRED_TEMP_ROOT@
        } else {
            system_temp
        },
        None => if preferred_available {
            PREFERRED_TEMP_ROOT@
        } else {
            system_temp
        },
    }
}

pub open spec fn opt_view(o: Option<String>) -> Option<Seq<char>> {
    match o {
        Some(s) => Some(s@),
        None => None,
    }
}

/// The temporary root of tests: a non-empty override first, then the preferred root when
/// it exists, then the system's temporary directory.
pub fn choose_temp_root(override_dir: Option<String>, preferred_available: bool, system_temp: String) -> (r: String)
    ensures
        r@ == temp_root_spec(opt_view(override_dir), preferred_available, system_temp@),
{
    if let Some(dir) = override_dir {
        if !dir.as_str().is_empty() {
            return dir;
        }
    }
    if preferred_available {
        return String::from_str(PREFERRED_TEMP_ROOT);
    }
    system_temp
}

/// Identifiers `generated-1`, `generated-2`, … in order.
#[derive(Debug)]
pub struct SequenceIdGenerator {
    next: u64,
}

impl View for SequenceIdGenerator {
    type V = u64;

    closed spec fn view(&self) -> u64 {
        self.next
    }
}

impl SequenceIdGenerator {
    /// Starts at 1.
    pub fn new() -> (r: Self)
        ensures
            r@ == 1,
    {
        SequenceIdGenerator { next: 1 }
    }

    /// The next identifier; the counter wraps like an atomic add.
    pub fn next_id(&mut self) -> (r: String)
        ensures
            r@ == "generated-"@ + decimal(old(self)@ as nat),
            final(self)@ == (if old(self)@ == u64::MAX {
                0
            } else {
                (old(self)@ + 1) as u64
            }),
    {
        let value = self.next;
        self.next = self.next.wrapping_add(1);
        let digits = decimal_string(value);
        concat("generated-", digits.as_str())
    }
}

} // verus!
