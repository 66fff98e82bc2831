use plugin_host::HostError;
use plugin_host::MemSpec;
use plugin_host::MemWorker;
use plugin_host::Worker;
use plugin_host::WorkerSpec;

fn constants() -> ([u8; 72], [[u16; 64]; 64], [u64; 4]) {
    ([0u8; 72], [[0u16; 64]; 64], [0u64; 4])
}

#[test]
fn built_worker_is_fresh() {
    let spec = MemSpec { device: "dev0".to_string(), workload: 5 };
    let worker = spec.build();
    assert_eq!(worker.id(), "dev0");
    assert_eq!(worker.get_workload(), 5);
    assert!(worker.sync().is_ok());
}

#[test]
fn full_round_fills_at_most_the_workload() {
    // load_block_constants, calculate_hash(None) meaning "use the full
    // configured workload", sync, then copy_output_to: the buffer gets
    // get_workload() or fewer entries.
    let spec = MemSpec { device: "dev0".to_string(), workload: 5 };
    let mut worker = spec.build();
    let (header, matrix, target) = constants();
    worker.load_block_constants(&header, &matrix, &target);
    worker.calculate_hash(None);
    assert!(worker.sync().is_ok());
    let mut buf: Vec<u64> = Vec::new();
    worker.copy_output_to(&mut buf).unwrap();
    assert!(buf.len() <= worker.get_workload());
    assert_eq!(buf, vec![0, 1, 2, 3, 4]);
}

#[test]
fn second_copy_without_new_round_adds_nothing() {
    let spec = MemSpec { device: "dev0".to_string(), workload: 3 };
    let mut worker = spec.build();
    let (header, matrix, target) = constants();
    worker.load_block_constants(&header, &matrix, &target);
    worker.calculate_hash(None);
    worker.sync().unwrap();
    let mut buf: Vec<u64> = Vec::new();
    worker.copy_output_to(&mut buf).unwrap();
    let after_first = buf.clone();
    worker.copy_output_to(&mut buf).unwrap();
    assert_eq!(buf, after_first);
}

#[test]
fn supplied_nonces_pass_through_the_round() {
    let spec = MemSpec { device: "dev1".to_string(), workload: 8 };
    let mut worker = spec.build();
    let (header, matrix, target) = constants();
    worker.load_block_constants(&header, &matrix, &target);
    let nonces = vec![7u64, 11, 13];
    worker.calculate_hash(Some(&nonces));
    worker.sync().unwrap();
    let mut buf: Vec<u64> = vec![1];
    worker.copy_output_to(&mut buf).unwrap();
    assert_eq!(buf, vec![1, 7, 11, 13]);
}

#[test]
fn reconfiguring_discards_pending_output() {
    let spec = MemSpec { device: "dev2".to_string(), workload: 4 };
    let mut worker = spec.build();
    let (header, matrix, target) = constants();
    worker.load_block_constants(&header, &matrix, &target);
    worker.calculate_hash(None);
    worker.load_block_constants(&header, &matrix, &target);
    let mut buf: Vec<u64> = Vec::new();
    worker.copy_output_to(&mut buf).unwrap();
    assert!(buf.is_empty());
}

#[test]
fn faulted_worker_reports_sync_fault() {
    let mut worker = MemWorker::new("dev3".to_string(), 4, true);
    assert_eq!(worker.sync(), Err(HostError::WorkerSyncFault));
    let mut buf: Vec<u64> = Vec::new();
    assert_eq!(worker.copy_output_to(&mut buf), Err(HostError::WorkerSyncFault));
    assert!(buf.is_empty());
}
