use dsl::cgroup::apply;
use dsl::cli::Limits;
use dsl::plan::{CgroupFile, PlanError, Step};

fn limits(memory: Option<&str>, cpu: Option<u64>, pids: Option<u64>) -> Limits {
    Limits {
        memory: memory.map(String::from),
        cpu,
        pids,
    }
}

#[test]
fn cpu_two_cores_writes_exactly_200000_100000() {
    let steps = apply(&limits(None, Some(2), None), 1234).unwrap();
    assert_eq!(
        steps,
        vec![
            Step::CgroupDir,
            Step::CgroupWrite {
                file: CgroupFile::CpuMax,
                contents: String::from("200000 100000"),
            },
            Step::CgroupJoin { pid: 1234 },
        ]
    );
}

#[test]
fn unset_limits_write_no_controller_files() {
    let steps = apply(&Limits::unlimited(), 77).unwrap();
    assert_eq!(steps, vec![Step::CgroupDir, Step::CgroupJoin { pid: 77 }]);
}

#[test]
fn all_three_fields_write_in_fixed_order_and_join_last() {
    let steps = apply(&limits(Some("256M"), Some(1), Some(64)), 42).unwrap();
    assert_eq!(
        steps,
        vec![
            Step::CgroupDir,
            Step::CgroupWrite {
                file: CgroupFile::MemoryMax,
                contents: String::from("268435456"),
            },
            Step::CgroupWrite {
                file: CgroupFile::CpuMax,
                contents: String::from("100000 100000"),
            },
            Step::CgroupWrite {
                file: CgroupFile::PidsMax,
                contents: String::from("64"),
            },
            Step::CgroupJoin { pid: 42 },
        ]
    );
}

#[test]
fn pids_value_is_written_verbatim() {
    let steps = apply(&limits(None, None, Some(500)), 1).unwrap();
    assert_eq!(
        steps,
        vec![
            Step::CgroupDir,
            Step::CgroupWrite {
                file: CgroupFile::PidsMax,
                contents: String::from("500"),
            },
            Step::CgroupJoin { pid: 1 },
        ]
    );
}

#[test]
fn bad_memory_string_is_a_fatal_configuration_error() {
    assert_eq!(
        apply(&limits(Some("abcG"), None, None), 1),
        Err(PlanError::BadMemory)
    );
    assert_eq!(
        apply(&limits(Some("G"), Some(1), Some(2)), 1),
        Err(PlanError::BadMemory)
    );
}

#[test]
fn unrepresentable_cpu_quota_is_a_fatal_configuration_error() {
    assert_eq!(
        apply(&limits(None, Some(u64::MAX / 100000 + 1), None), 1),
        Err(PlanError::CpuTooLarge)
    );
}

#[test]
fn largest_representable_cpu_count_is_accepted() {
    let c = u64::MAX / 100000;
    let steps = apply(&limits(None, Some(c), None), 1).unwrap();
    match &steps[1] {
        Step::CgroupWrite { file, contents } => {
            assert_eq!(*file, CgroupFile::CpuMax);
            assert_eq!(*contents, format!("{} 100000", c * 100000));
        }
        other => panic!("unexpected step {:?}", other),
    }
}

#[test]
fn bad_memory_is_reported_before_bad_cpu() {
    assert_eq!(
        apply(&limits(Some("xG"), Some(u64::MAX), None), 1),
        Err(PlanError::BadMemory)
    );
}
