//! Resource-limit application: the memory-string arithmetic and the exact
//! list of control-group writes that one launch performs.

use vstd::prelude::*;
use crate::cli::{Limits, LimitsView};
use crate::num::{all_dec_digits, dec_seq, dec_value};
use crate::plan::{CgroupFile, PlanError, Step, StepSpec};

verus! {

/// Bytes in one gibibyte: the scale of a `G`/`g` suffix.
pub const GIB: u64 = 1024 * 1024 * 1024;

/// Bytes in one mebibyte: the scale of an `M`/`m` suffix.
pub const MIB: u64 = 1024 * 1024;

/// Microseconds in the fixed CPU quota period.
pub const CPU_PERIOD: u64 = 100000;

/// The fixed control-group directory.  It is a process-wide singleton:
/// concurrent launches collide on it.
pub fn cgroup_dir() -> (r: &'static str)
    ensures
        r@ == "/sys/fs/cgroup/dsl"@,
{
    "/sys/fs/cgroup/dsl"
}

/// The file name of one controller inside the control-group directory.
pub fn controller_file_name(f: CgroupFile) -> (r: &'static str)
    ensures
        r@ == (match f {
            CgroupFile::MemoryMax => "memory.max"@,
            CgroupFile::CpuMax => "cpu.max"@,
            CgroupFile::PidsMax => "pids.max"@,
        }),
{
    match f {
        CgroupFile::MemoryMax => "memory.max",
        CgroupFile::CpuMax => "cpu.max",
        CgroupFile::PidsMax => "pids.max",
    }
}

/// The file inside the control-group directory that a process id is
/// written to in order to join the group.
pub fn procs_file_name() -> (r: &'static str)
    ensures
        r@ == "cgroup.procs"@,
{
    "cgroup.procs"
}

/// The memory string ends in `G` or `g`.
pub open spec fn has_g_suffix(s: Seq<char>) -> bool {
    s.len() > 0 && (s.last() == 'G' || s.last() == 'g')
}

/// The memory string ends in `M` or `m`.
pub open spec fn has_m_suffix(s: Seq<char>) -> bool {
    s.len() > 0 && (s.last() == 'M' || s.last() == 'm')
}

/// The byte count that a suffixed memory string denotes: the numeric part
/// scaled by the suffix.
pub open spec fn mem_bytes(s: Seq<char>) -> nat {
    if has_g_suffix(s) {
        dec_value(s.drop_last()) * (GIB as nat)
    } else {
        dec_value(s.drop_last()) * (MIB as nat)
    }
}

/// A memory string is acceptable: either it has no size suffix (and is
/// passed through verbatim), or the part before the suffix is a nonempty
/// digit string whose scaled value fits in a `u64`.
pub open spec fn mem_ok(s: Seq<char>) -> bool {
    if has_g_suffix(s) || has_m_suffix(s) {
        s.drop_last().len() > 0 && all_dec_digits(s.drop_last()) && mem_bytes(s) <= u64::MAX
    } else {
        true
    }
}

/// What is written to `memory.max` for an acceptable memory string: the
/// scaled byte count in decimal for a suffixed string, the string itself
/// otherwise.
pub open spec fn mem_contents(s: Seq<char>) -> Seq<char> {
    if has_g_suffix(s) || has_m_suffix(s) {
        dec_seq(mem_bytes(s))
    } else {
        s
    }
}

/// Convert a memory size string to the byte-count string written to
/// `memory.max`, or report that it is unacceptable.
pub fn parse_memory_checked(mem: &str) -> (r: Option<String>)
    ensures
        r is Some <==> mem_ok(mem@),
        r matches Some(s) ==> s@ == mem_contents(mem@),
{
    let n = mem.unicode_len();
    if n == 0 {
        return Some(mem.to_owned());
    }
    let last = mem.get_char(n - 1);
    let is_g = last == 'G' || last == 'g';
    let is_m = last == 'M' || last == 'm';
    if !is_g && !is_m {
        return Some(mem.to_owned());
    }
    let mult: u64 = if is_g {
        GIB
    } else {
        MIB
    };
    let prefix = mem.substring_char(0, n - 1);
    proof {
        assert(prefix@ =~= mem@.drop_last());
    }
    match crate::num::parse_u64(prefix) {
        None => {
            proof {
                if dec_value(mem@.drop_last()) > u64::MAX {
                    assert(dec_value(mem@.drop_last()) * (mult as nat) >= dec_value(
                        mem@.drop_last(),
                    ) * 1) by (nonlinear_arith)
                        requires
                            mult >= 1,
                    ;
                }
            }
            None
        },
        Some(v) => {
            match v.checked_mul(mult) {
                None => None,
                Some(bytes) => Some(crate::num::u64_to_dec(bytes)),
            }
        },
    }
}

/// Convert a memory size string to the byte-count string written to
/// `memory.max`.  A `G`/`g` suffix scales the numeric part by 1024³, an
/// `M`/`m` suffix by 1024², and any other string passes through unchanged.
pub fn parse_memory(mem: &str) -> (r: String)
    requires
        mem_ok(mem@),
    ensures
        r@ == mem_contents(mem@),
{
    match parse_memory_checked(mem) {
        Some(s) => s,
        None => {
            assert(false);
            String::new()
        },
    }
}

/// The law of the `G` suffix: for every acceptable memory string ending in
/// `G` or `g`, the written byte count reads back as the numeric part times
/// 1024³.
pub proof fn lemma_memory_g_suffix(s: Seq<char>)
    requires
        has_g_suffix(s),
        mem_ok(s),
    ensures
        dec_value(mem_contents(s)) == dec_value(s.drop_last()) * GIB,
{
    crate::num::lemma_dec_seq_value(mem_bytes(s));
}

/// The law of the `M` suffix: for every acceptable memory string ending in
/// `M` or `m`, the written byte count reads back as the numeric part times
/// 1024².
pub proof fn lemma_memory_m_suffix(s: Seq<char>)
    requires
        has_m_suffix(s),
        mem_ok(s),
    ensures
        dec_value(mem_contents(s)) == dec_value(s.drop_last()) * MIB,
{
    crate::num::lemma_dec_seq_value(mem_bytes(s));
}

/// The pass-through law: a memory string without a size suffix — a bare
/// numeric string among them — is written out unchanged.
pub proof fn lemma_memory_passthrough(s: Seq<char>)
    requires
        !has_g_suffix(s),
        !has_m_suffix(s),
    ensures
        mem_contents(s) == s,
{
}

/// The contents written to `cpu.max` for a core count: the quota in
/// microseconds followed by the fixed period.
pub open spec fn cpu_contents(c: u64) -> Seq<char> {
    dec_seq((c * CPU_PERIOD) as nat) + " 100000"@
}

/// Every populated limit field is representable: the memory string is
/// acceptable and the CPU quota fits in a `u64`.
pub open spec fn limits_ok(l: LimitsView) -> bool {
    &&& (l.memory matches Some(m) ==> mem_ok(m))
    &&& (l.cpu matches Some(c) ==> c <= u64::MAX as u64 / CPU_PERIOD)
}

/// The exact, ordered control-group steps for one launch: ensure the group
/// directory, write one controller file per populated field (memory, then
/// cpu, then pids), and join the group last, so that the joining process is
/// immediately subject to the limits.  Unset fields produce no write.
pub open spec fn cgroup_steps(l: LimitsView, pid: u64) -> Seq<StepSpec> {
    seq![StepSpec::CgroupDir] + (match l.memory {
        Some(m) => seq![
            StepSpec::CgroupWrite { file: CgroupFile::MemoryMax, contents: mem_contents(m) },
        ],
        None => Seq::<StepSpec>::empty(),
    }) + (match l.cpu {
        Some(c) => seq![StepSpec::CgroupWrite { file: CgroupFile::CpuMax, contents: cpu_contents(c) }],
        None => Seq::<StepSpec>::empty(),
    }) + (match l.pids {
        Some(p) => seq![StepSpec::CgroupWrite { file: CgroupFile::PidsMax, contents: dec_seq(p as nat) }],
        None => Seq::<StepSpec>::empty(),
    }) + seq![StepSpec::CgroupJoin { pid }]
}

/// The law of unset limits: with all three fields unset, the cgroup part
/// of the plan ensures the group directory and joins the group, and writes
/// no controller file at all.
pub proof fn lemma_unset_limits_join_only(pid: u64)
    ensures
        cgroup_steps(LimitsView { memory: None, cpu: None, pids: None }, pid) == seq![
            StepSpec::CgroupDir,
            StepSpec::CgroupJoin { pid },
        ],
{
    assert(cgroup_steps(LimitsView { memory: None, cpu: None, pids: None }, pid) =~= seq![
        StepSpec::CgroupDir,
        StepSpec::CgroupJoin { pid },
    ]);
}

/// Build the control-group steps for `limits`, joining the group as `pid`.
/// Fails with `BadMemory` exactly on an unacceptable memory string, and
/// otherwise with `CpuTooLarge` exactly on an unrepresentable CPU quota.
pub fn apply(limits: &Limits, pid: u64) -> (r: Result<Vec<Step>, PlanError>)
    ensures
        r is Ok <==> limits_ok(limits@),
        r matches Ok(v) ==> v.deep_view() == cgroup_steps(limits@, pid),
        r == Err::<Vec<Step>, PlanError>(PlanError::BadMemory) <==> (limits@.memory matches Some(
            m,
        ) && !mem_ok(m)),
        r == Err::<Vec<Step>, PlanError>(PlanError::CpuTooLarge) <==> ((limits@.memory matches Some(
            m,
        ) ==> mem_ok(m)) && (limits@.cpu matches Some(c) && c > u64::MAX as u64 / CPU_PERIOD)),
{
    let mut steps: Vec<Step> = Vec::new();
    steps.push(Step::CgroupDir);
    match &limits.memory {
        Some(m) => {
            match parse_memory_checked(m.as_str()) {
                Some(contents) => {
                    steps.push(Step::CgroupWrite { file: CgroupFile::MemoryMax, contents });
                },
                None => {
                    return Err(PlanError::BadMemory);
                },
            }
        },
        None => {},
    }
    match limits.cpu {
        Some(c) => {
            if c > u64::MAX / CPU_PERIOD {
                return Err(PlanError::CpuTooLarge);
            }
            let quota = c * CPU_PERIOD;
            let contents = crate::num::u64_to_dec(quota).concat(" 100000");
            steps.push(Step::CgroupWrite { file: CgroupFile::CpuMax, contents });
        },
        None => {},
    }
    match limits.pids {
        Some(p) => {
            let contents = crate::num::u64_to_dec(p);
            steps.push(Step::CgroupWrite { file: CgroupFile::PidsMax, contents });
        },
        None => {},
    }
    steps.push(Step::CgroupJoin { pid });
    proof {
        assert(steps.deep_view() =~= cgroup_steps(limits@, pid));
    }
    Ok(steps)
}

} // verus!
