//! What is said to the victim service and what it answers.

use vstd::prelude::*;
use vstd::std_specs::convert::FromSpecImpl;
use crate::types::PageTrackMode;

verus! {

/// Answer to the request for a program that goes back and forth between
/// two pages: where the pages are, and how often it goes.
#[derive(Debug)]
pub struct PingPongPageTrackInitResp {
    pub gpa1: u64,
    pub gpa2: u64,
    pub iterations: u64,
}

/// The kind of access with which the program touches its two pages.
#[allow(non_camel_case_types)]
#[derive(Clone, Copy, Debug, PartialEq, Eq, Structural)]
pub enum AccessType {
    READ,
    WRITE,
    EXEC,
}

/// Whether two texts are the same.
fn same_text(a: &str, b: &str) -> (r: bool)
    ensures
        r == (a@ == b@),
{
    let left: String = a.to_owned();
    let right: String = b.to_owned();
    left == right
}

impl AccessType {
    /// The name of the access type.
    pub open spec fn spec_name(self) -> Seq<char> {
        match self {
            AccessType::READ => "READ"@,
            AccessType::WRITE => "WRITE"@,
            AccessType::EXEC => "EXEC"@,
        }
    }

    /// The access type with the given name, if there is one.
    pub open spec fn spec_from_name(s: Seq<char>) -> Option<AccessType> {
        if s == "READ"@ {
            Some(AccessType::READ)
        } else if s == "WRITE"@ {
            Some(AccessType::WRITE)
        } else if s == "EXEC"@ {
            Some(AccessType::EXEC)
        } else {
            None
        }
    }

    /// Writes the name of the access type.
    pub fn to_string(&self) -> (r: String)
        ensures
            r@ == self.spec_name(),
    {
        match self {
            AccessType::READ => "READ".to_owned(),
            AccessType::WRITE => "WRITE".to_owned(),
            AccessType::EXEC => "EXEC".to_owned(),
        }
    }

    /// Reads the name of an access type. The names are those that
    /// `to_string` writes, letter for letter.
    pub fn from_str(s: &str) -> (r: Result<AccessType, String>)
        ensures
            match Self::spec_from_name(s@) {
                Some(access) => r == Ok::<AccessType, String>(access),
                None => r is Err && r->Err_0@ == "not a valid access type"@,
            },
    {
        if same_text(s, "READ") {
            Ok(AccessType::READ)
        } else if same_text(s, "WRITE") {
            Ok(AccessType::WRITE)
        } else if same_text(s, "EXEC") {
            Ok(AccessType::EXEC)
        } else {
            Err("not a valid access type".to_owned())
        }
    }
}

impl From<PageTrackMode> for AccessType {
    fn from(value: PageTrackMode) -> (r: AccessType) {
        match value {
            PageTrackMode::Write => AccessType::WRITE,
            PageTrackMode::Access => AccessType::READ,
            PageTrackMode::Exec => AccessType::EXEC,
        }
    }
}

impl FromSpecImpl<PageTrackMode> for AccessType {
    open spec fn obeys_from_spec() -> bool {
        true
    }

    /// Tracking of writes goes with writing, of executions with
    /// executing, and of any access with reading.
    open spec fn from_spec(value: PageTrackMode) -> AccessType {
        match value {
            PageTrackMode::Write => AccessType::WRITE,
            PageTrackMode::Access => AccessType::READ,
            PageTrackMode::Exec => AccessType::EXEC,
        }
    }
}

/// Request for a program that goes back and forth between two pages.
#[derive(Debug)]
pub struct PingPongPageTrackReq {
    pub access_type: AccessType,
}

/// Request to start the prepared victim program.
#[derive(Debug)]
pub struct SingleStepVictimStartReq {
    pub victim_program: String,
}

/// Request to prepare a victim program.
#[derive(Debug)]
pub struct SingleStepVictimInitReq {
    pub victim_program: String,
}

/// Answer to the request to prepare a victim program.
#[derive(Debug)]
pub struct SingleStepVictimInitResp {
    /// (Guest) physical address at which the targeted function is mapped
    pub gpa: u64,
    /// virtual address at which the targeted function is mapped
    pub vaddr: u64,
    /// all instruction offsets of the targeted function, relative to
    /// vaddr
    pub expected_offsets: Vec<u64>,
    /// If true, the following cache attack fields contain valid data
    pub has_cache_attack_data: bool,
    /// subset of expected_offsets at which relevant memory accesses take
    /// place
    pub offsets_with_mem_access: Vec<u64>,
    /// for each of offsets_with_mem_access, the offset in the lookup table
    /// that is accessed
    pub mem_access_target_offset: Vec<u64>,
    pub lookup_table_gpa: u64,
    pub lookup_table_vaddr: u64,
    /// length of lookup table in bytes
    pub lookup_table_bytes: u64,
}

/// The victim programs that the service knows.
#[derive(Clone, Copy, Debug, PartialEq, Eq, Hash, Structural)]
pub enum SingleStepTarget {
    NopSlide,
    SimpleCacheTarget,
    SimpleCacheTargetLfence,
    EvalCacheTarget,
    EvalCacheTargetLfence,
}

impl SingleStepTarget {
    /// The name of the victim program.
    pub open spec fn spec_name(self) -> Seq<char> {
        match self {
            SingleStepTarget::NopSlide => "NopSlide"@,
            SingleStepTarget::SimpleCacheTarget => "SimpleCacheTarget"@,
            SingleStepTarget::SimpleCacheTargetLfence => "SimpleCacheTargetLfence"@,
            SingleStepTarget::EvalCacheTarget => "EvalCacheTarget"@,
            SingleStepTarget::EvalCacheTargetLfence => "EvalCacheTargetLfence"@,
        }
    }

    /// The victim program with the given name, if there is one.
    pub open spec fn spec_from_name(s: Seq<char>) -> Option<SingleStepTarget> {
        if s == "NopSlide"@ {
            Some(SingleStepTarget::NopSlide)
        } else if s == "SimpleCacheTarget"@ {
            Some(SingleStepTarget::SimpleCacheTarget)
        } else if s == "SimpleCacheTargetLfence"@ {
            Some(SingleStepTarget::SimpleCacheTargetLfence)
        } else if s == "EvalCacheTarget"@ {
            Some(SingleStepTarget::EvalCacheTarget)
        } else if s == "EvalCacheTargetLfence"@ {
            Some(SingleStepTarget::EvalCacheTargetLfence)
        } else {
            None
        }
    }

    /// Writes the name of the victim program.
    pub fn to_string(&self) -> (r: String)
        ensures
            r@ == self.spec_name(),
    {
        match self {
            SingleStepTarget::NopSlide => "NopSlide".to_owned(),
            SingleStepTarget::SimpleCacheTarget => "SimpleCacheTarget".to_owned(),
            SingleStepTarget::SimpleCacheTargetLfence => "SimpleCacheTargetLfence".to_owned(),
            SingleStepTarget::EvalCacheTarget => "EvalCacheTarget".to_owned(),
            SingleStepTarget::EvalCacheTargetLfence => "EvalCacheTargetLfence".to_owned(),
        }
    }

    /// Reads the name of a victim program. The names are those that
    /// `to_string` writes, letter for letter.
    pub fn from_str(s: &str) -> (r: Result<SingleStepTarget, String>)
        ensures
            match Self::spec_from_name(s@) {
                Some(target) => r == Ok::<SingleStepTarget, String>(target),
                None => r is Err && r->Err_0@ == "not a valid victim program type"@,
            },
    {
        if same_text(s, "NopSlide") {
            Ok(SingleStepTarget::NopSlide)
        } else if same_text(s, "SimpleCacheTarget") {
            Ok(SingleStepTarget::SimpleCacheTarget)
        } else if same_text(s, "SimpleCacheTargetLfence") {
            Ok(SingleStepTarget::SimpleCacheTargetLfence)
        } else if same_text(s, "EvalCacheTarget") {
            Ok(SingleStepTarget::EvalCacheTarget)
        } else if same_text(s, "EvalCacheTargetLfence") {
            Ok(SingleStepTarget::EvalCacheTargetLfence)
        } else {
            Err("not a valid victim program type".to_owned())
        }
    }
}

} // verus!
