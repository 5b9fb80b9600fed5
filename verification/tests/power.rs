use winquery::error::Error;
use winquery::power::{
    decode_power_record, prepare_power_query, query_processor_information, read_le_u32,
    PowerQuery, POWER_RECORD_BYTES, PROCESSOR_POWER_INFORMATION, STATUS_SUCCESS,
};

fn record_bytes(fields: [u32; 6]) -> Vec<u8> {
    let mut v = Vec::new();
    for x in fields {
        v.extend_from_slice(&x.to_le_bytes());
    }
    v
}

#[test]
fn zero_processors_refused_before_any_call() {
    match prepare_power_query(0) {
        PowerQuery::Refused(Error::InvalidData(m)) => {
            assert_eq!(m, "No processors were found");
        }
        other => panic!("expected a refusal, got {:?}", other),
    }
}

#[test]
fn zero_processors_query_is_invalid_data() {
    let r = query_processor_information(0, STATUS_SUCCESS, 0, &[]);
    assert_eq!(r, Err(Error::InvalidData("No processors were found")));
}

#[test]
fn plan_sizes_buffer_for_each_processor() {
    match prepare_power_query(4) {
        PowerQuery::Call { record_count, buffer_bytes } => {
            assert_eq!(record_count, 4);
            assert_eq!(buffer_bytes, 4 * POWER_RECORD_BYTES as u64);
        }
        other => panic!("expected a call plan, got {:?}", other),
    }
}

#[test]
fn read_le_u32_is_little_endian() {
    let bytes = [0x78u8, 0x56, 0x34, 0x12];
    assert_eq!(read_le_u32(&bytes, 0), 0x1234_5678);
}

#[test]
fn decode_power_record_reads_all_fields() {
    let buf = record_bytes([1, 3000, 2400, 2800, 2, 1]);
    let rec = decode_power_record(&buf, 0);
    assert_eq!(
        rec,
        PROCESSOR_POWER_INFORMATION {
            Number: 1,
            MaxMhz: 3000,
            CurrentMhz: 2400,
            MhzLimit: 2800,
            MaxIdleState: 2,
            CurrentIdleState: 1,
        }
    );
}

#[test]
fn query_returns_one_record_per_processor() {
    let mut buf = record_bytes([0, 3000, 2400, 3000, 2, 0]);
    buf.extend_from_slice(&record_bytes([1, 3000, 1200, 3000, 2, 1]));
    let r = query_processor_information(2, STATUS_SUCCESS, 0, &buf).unwrap();
    assert_eq!(r.len(), 2);
    assert_eq!(r[0].Number, 0);
    assert_eq!(r[0].CurrentMhz, 2400);
    assert_eq!(r[1].Number, 1);
    assert_eq!(r[1].CurrentMhz, 1200);
    for rec in &r {
        assert!(rec.CurrentMhz <= rec.MaxMhz);
    }
}

#[test]
fn query_failure_wraps_the_native_call_name() {
    let buf = record_bytes([0, 0, 0, 0, 0, 0]);
    let r = query_processor_information(1, -1073741823, 5, &buf);
    assert_eq!(r, Err(Error::SysCall { call: "CallNtPowerInformation", code: 5 }));
}

#[test]
fn query_rejects_a_short_buffer() {
    let buf = vec![0u8; POWER_RECORD_BYTES - 1];
    let r = query_processor_information(1, STATUS_SUCCESS, 0, &buf);
    assert_eq!(r, Err(Error::InvalidData("Processor power buffer was truncated")));
}

#[test]
fn error_kind_accessors() {
    assert!(Error::InvalidData("No processors were found").is_invalid_data());
    assert!(!Error::InvalidData("No processors were found").is_sys_call());
    let e = Error::SysCall { call: "CallNtPowerInformation", code: 2 };
    assert!(e.is_sys_call());
    assert!(!e.is_invalid_data());
}
