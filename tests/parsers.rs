use gdnd::procs::{in_uninterruptible_sleep, parse_pid_lines, parse_usage_pids};
use gdnd::device_log::{device_log_errors, log_fault_codes};
use gdnd::dmesg::{dmesg_xid_errors, parse_xid_codes};
use gdnd::npu_smi::{parse_device_list, parse_device_metrics};

const TABLE: &str = r#"
+------------------------------------------------------------------------------------------------+
| npu-smi 23.0.0                   Version: 23.0.0                                               |
+---------------------------+---------------+----------------------------------------------------+
| NPU     Name              | Health        | Power(W)    Temp(C)           Hugepages-Usage(page)|
| Chip                      | Bus-Id        | AICore(%)   Memory-Usage(MB)   HBM-Usage(MB)       |
+===========================+===============+====================================================+
| 0       910B3             | OK            | 112.5       37         0 / 0                       |
| 0                         | 0000:C1:00.0  | 6           0 / 0              33551 / 65536       |
+===========================+===============+====================================================+
| 1       910B3             | OK            | 110.0       35         0 / 0                       |
| 1                         | 0000:C2:00.0  | 10          0 / 0              20000 / 65536       |
+===========================+===============+====================================================+
"#;

#[test]
fn test_parse_npu_smi_output() {
    let devices = parse_device_list(TABLE);
    assert_eq!(devices.len(), 2);
    assert_eq!(devices[0].index, 0);
    assert_eq!(devices[0].name, "910B3");
    assert_eq!(devices[0].health, "OK");
    assert_eq!(devices[0].bus_id, Some("0000:C1:00.0".to_string()));

    assert_eq!(devices[1].index, 1);
    assert_eq!(devices[1].bus_id, Some("0000:C2:00.0".to_string()));
}

#[test]
fn test_parse_device_metrics() {
    let sample_output = r#"
| 0       910B3             | OK            | 112.5       37         0 / 0                       |
| 0                         | 0000:C1:00.0  | 6           0 / 0              33551 / 65536       |
"#;
    let metrics = parse_device_metrics(sample_output, 0);
    assert_eq!(metrics.temperature, 37);
    assert_eq!(metrics.power, 112);
    assert_eq!(metrics.aicore_util, 6);
    assert_eq!(metrics.hbm_used, 33551 * 1024 * 1024);
    assert_eq!(metrics.hbm_total, 65536 * 1024 * 1024);
}

#[test]
fn metrics_of_second_device_and_missing_device() {
    let m = parse_device_metrics(TABLE, 1);
    assert_eq!(m.temperature, 35);
    assert_eq!(m.power, 110);
    assert_eq!(m.aicore_util, 10);
    assert_eq!(m.hbm_used, 20000 * 1024 * 1024);
    let none = parse_device_metrics(TABLE, 7);
    assert_eq!(none.temperature, 0);
    assert_eq!(none.hbm_total, 0);
}

#[test]
fn device_list_with_crlf_and_fault_health() {
    let out = "| 3       910B4             | Warning       | 90          80         0 / 0 |\r\n| 3                         | 0000:81:00.0  | 1           0 / 0              1 / 2 |\r\n";
    let d = parse_device_list(out);
    assert_eq!(d.len(), 1);
    assert_eq!(d[0].index, 3);
    assert_eq!(d[0].health, "Warning");
    assert_eq!(d[0].bus_id.as_deref(), Some("0000:81:00.0"));
    assert!(parse_device_list("").is_empty());
    let last_row_only = parse_device_list("| 4 A | OK |");
    assert_eq!(last_row_only.len(), 1);
    assert_eq!(last_row_only[0].bus_id, None);
}

#[test]
fn dmesg_xid_records() {
    let log = "[Mon] NVRM: Xid (PCI:0000:3b:00): 79, pid=123, GPU has fallen off the bus.\n\
               [Mon] NVRM: Xid (PCI:0000:3b:00): 13, Graphics\n\
               [Mon] NVRM: Xid (PCI:): 31, empty bus\n\
               [Mon] NVRM: Xid (PCI:0000:3b:00): 99999999999, too big\n\
               [Mon] NVRM: Xid (PCI:0000:3b:00): 48 missing comma\n";
    assert_eq!(parse_xid_codes(log), vec![79, 13]);
    let errors = dmesg_xid_errors(log, 2);
    assert_eq!(errors.len(), 2);
    assert_eq!(errors[0].code, 79);
    assert_eq!(errors[0].message, "GPU has fallen off the bus");
    assert_eq!(errors[1].message, "Graphics Engine Exception");
    assert_eq!(errors[1].device_index, 2);
    assert!(parse_xid_codes("no records here").is_empty());
}

#[test]
fn device_log_codes() {
    let logs = vec![
        "2024 [ERROR] HBM ecc error detected\n[INFO] all good\n[ERROR] device 3 lost\n".to_string(),
        "[ERROR] AICore 2 hang\n[WARN] temperature high\nErrCode=1008 seen; ErrCode=77\n".to_string(),
        "ErrCode=99999999999\n[ERROR] temperature over limit\n[ERROR] PCIe\nlink down\n".to_string(),
    ];
    assert_eq!(log_fault_codes(&logs), vec![77, 1001, 1002, 1003, 1007, 1008, 9999]);
    let errors = device_log_errors(&logs, 5);
    assert_eq!(errors.len(), 7);
    assert_eq!(errors[0].message, "Unknown error");
    assert_eq!(errors[1].message, "HBM memory error");
    assert_eq!(errors[6].device_index, 5);
    assert!(log_fault_codes(&vec![String::new()]).is_empty());
}

#[test]
fn pid_lines() {
    assert_eq!(parse_pid_lines("123\n  456 \r\nabc\n+7\n\n99999999999\n12 34\n"), vec![123, 456, 7]);
    assert!(parse_pid_lines("").is_empty());
}

#[test]
fn proc_stat_state() {
    assert!(in_uninterruptible_sleep("1234 (python) D 1 1234 1234 0 -1"));
    assert!(!in_uninterruptible_sleep("1234 (python) S 1 1234"));
    assert!(!in_uninterruptible_sleep("1234 (python) DS 1"));
    assert!(!in_uninterruptible_sleep("1234 (python)"));
}

#[test]
fn usage_pids() {
    assert_eq!(parse_usage_pids("Process id PID: 4242\nPID 17, XPID 5, PID:  99"), vec![4242, 17, 99]);
    assert!(parse_usage_pids("PID none").is_empty());
}
