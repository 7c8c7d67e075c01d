use echo_server::cores::{
    cores_from_field, tally_processor_lines, worker_count, CpuInfoCounter, DetectionError,
    HardwareReportCounter,
};
use echo_server::DEFAULT_WORKER_NUM;

fn lines(text: &str) -> Vec<String> {
    text.lines().map(|l| l.to_string()).collect()
}

#[test]
fn cpuinfo_counts_processor_lines() {
    let c = CpuInfoCounter::new().unwrap();
    let info = lines(
        "processor\t: 0\nvendor_id\t: GenuineIntel\n\nprocessor\t: 1\nmodel name\t: x\n\nprocessor\t: 2\n",
    );
    assert_eq!(c.count_cores(&info), Ok(3));
}

#[test]
fn cpuinfo_ignores_lines_that_only_mention_processors() {
    let c = CpuInfoCounter::new().unwrap();
    let info = lines("model name\t: processor x\nprocessor\nprocessor:0\n processor\t: 1\nprocessor\t: 7");
    assert_eq!(c.count_cores(&info), Ok(1));
}

#[test]
fn cpuinfo_without_processors_is_an_error() {
    let c = CpuInfoCounter::new().unwrap();
    assert_eq!(c.count_cores(&Vec::new()), Err(DetectionError::NoCores));
    assert_eq!(c.count_cores(&lines("flags\t: fpu\n")), Err(DetectionError::NoCores));
}

#[test]
fn tally_counts_true_flags() {
    assert_eq!(tally_processor_lines(&vec![true, false, true, true]), Ok(3));
    assert_eq!(tally_processor_lines(&vec![false, false]), Err(DetectionError::NoCores));
    assert_eq!(tally_processor_lines(&Vec::new()), Err(DetectionError::NoCores));
}

#[test]
fn hardware_report_gives_core_count() {
    let c = HardwareReportCounter::new().unwrap();
    let report = "Hardware:\n\n    Hardware Overview:\n\n      Model Name: Mac\n      Total Number of Cores: 8 (4 performance and 4 efficiency)\n      Memory: 16 GB\n";
    assert_eq!(c.count_cores(report.as_bytes()), Ok(8));
    let plain = "      Number of Processors: 1\n      Number of Cores: 12\n";
    assert_eq!(c.count_cores(plain.as_bytes()), Ok(12));
}

#[test]
fn hardware_report_without_field_is_an_error() {
    let c = HardwareReportCounter::new().unwrap();
    assert_eq!(c.count_cores(b"Hardware:\n  Memory: 8 GB\n"), Err(DetectionError::FieldMissing));
    assert_eq!(c.count_cores(b""), Err(DetectionError::FieldMissing));
}

#[test]
fn hardware_report_that_is_not_text_is_an_error() {
    let c = HardwareReportCounter::new().unwrap();
    assert_eq!(c.count_cores(&[0xc3, 0x28, b'8']), Err(DetectionError::NotText));
}

#[test]
fn hardware_report_with_huge_count_is_an_error() {
    let c = HardwareReportCounter::new().unwrap();
    let report = "Number of Cores: 999999999999999999999999999\n";
    assert_eq!(c.count_cores(report.as_bytes()), Err(DetectionError::BadNumber));
}

#[test]
fn field_is_parsed_as_decimal() {
    assert_eq!(cores_from_field(Some("16".to_string())), Ok(16));
    assert_eq!(cores_from_field(Some("+4".to_string())), Ok(4));
    assert_eq!(cores_from_field(Some("0".to_string())), Err(DetectionError::NoCores));
    assert_eq!(cores_from_field(Some("".to_string())), Err(DetectionError::BadNumber));
    assert_eq!(cores_from_field(Some("-3".to_string())), Err(DetectionError::BadNumber));
    assert_eq!(cores_from_field(Some("4x".to_string())), Err(DetectionError::BadNumber));
    assert_eq!(cores_from_field(None), Err(DetectionError::FieldMissing));
}

#[test]
fn failed_detection_falls_back_to_one_worker() {
    assert_eq!(worker_count(&Err(DetectionError::Unreadable)), 1);
    assert_eq!(worker_count(&Err(DetectionError::NoCores)), DEFAULT_WORKER_NUM);
    assert_eq!(worker_count(&Ok(0)), 1);
}

#[test]
fn detected_count_sizes_the_pool() {
    assert_eq!(worker_count(&Ok(4)), 4);
    assert_eq!(worker_count(&Ok(1)), 1);
}

#[test]
fn every_error_has_a_message() {
    let all = [
        DetectionError::Unreadable,
        DetectionError::NotText,
        DetectionError::FieldMissing,
        DetectionError::BadNumber,
        DetectionError::NoCores,
        DetectionError::BadPattern,
    ];
    for e in all.iter() {
        assert!(!e.message().is_empty());
    }
}

#[test]
fn cpuinfo_accepts_unicode_whitespace_after_processor() {
    let c = CpuInfoCounter::new().unwrap();
    let info = vec![
        "processor\u{3000}: 0".to_string(),
        "processor\u{a0}\u{2003}1".to_string(),
        "processor\u{200b}: 2".to_string(),
        "processor\t ".to_string(),
    ];
    assert_eq!(c.count_cores(&info), Ok(3));
}
