use vector_store::cuvs::device::{
    check_cuda, free_report, is_cagra_aligned, DeviceError, DeviceMatrix, DeviceOp, OpOutcome,
    Transfer,
};

/// Device memory for one matrix, simulated on the host.
struct Device {
    memory: Option<Vec<u8>>,
}

fn to_bytes(values: &[f32]) -> Vec<u8> {
    values.iter().flat_map(|value| value.to_ne_bytes()).collect()
}

fn to_values(bytes: &[u8]) -> Vec<f32> {
    bytes
        .chunks(4)
        .map(|chunk| f32::from_ne_bytes([chunk[0], chunk[1], chunk[2], chunk[3]]))
        .collect()
}

fn succeeded(op: DeviceOp) -> OpOutcome {
    match op {
        DeviceOp::AcquireStream | DeviceOp::SyncStream => OpOutcome::Library(Ok(())),
        _ => OpOutcome::Cuda {
            status: 0,
            message: "no error".to_string(),
        },
    }
}

impl Device {
    fn new() -> Self {
        Device { memory: None }
    }

    fn perform(&mut self, op: DeviceOp, host: &mut Vec<u8>) {
        match op {
            DeviceOp::Malloc { bytes } => self.memory = Some(vec![0xAB; bytes]),
            DeviceOp::MemsetZero { bytes } => {
                let memory = self.memory.as_mut().unwrap();
                for byte in memory[..bytes].iter_mut() {
                    *byte = 0;
                }
            }
            DeviceOp::CopyToDevice { bytes } => {
                self.memory.as_mut().unwrap()[..bytes].copy_from_slice(&host[..bytes])
            }
            DeviceOp::CopyToHost { bytes } => {
                host[..bytes].copy_from_slice(&self.memory.as_ref().unwrap()[..bytes])
            }
            DeviceOp::AcquireStream | DeviceOp::SyncStream => {}
        }
    }

    fn run(&mut self, mut transfer: Transfer, host: &mut Vec<u8>) -> usize {
        let mut performed = 0;
        while let Some(op) = transfer.current() {
            self.perform(op, host);
            transfer.advance(succeeded(op)).unwrap();
            performed += 1;
        }
        performed
    }

    fn upload(&mut self, values: &[f32], rows: usize, columns: usize) -> DeviceMatrix<f32> {
        let (matrix, transfer) = DeviceMatrix::from_host(values, rows, columns).unwrap();
        let mut host = to_bytes(values);
        self.run(transfer, &mut host);
        assert_eq!(host, to_bytes(values));
        matrix
    }

    fn download(&mut self, matrix: &DeviceMatrix<f32>, out: &mut Vec<f32>) {
        let transfer = matrix.to_host(out).unwrap();
        let mut host = to_bytes(out);
        self.run(transfer, &mut host);
        *out = to_values(&host);
    }
}

#[test]
fn f32_rows_are_cagra_aligned_when_divisible_by_four() {
    assert!(!is_cagra_aligned::<f32>(1));
    assert!(!is_cagra_aligned::<f32>(3));
    assert!(is_cagra_aligned::<f32>(4));
    assert!(!is_cagra_aligned::<f32>(5));
    // The dimensions real embeddings use.
    for dimensions in [128, 256, 512, 768, 1024] {
        assert!(is_cagra_aligned::<f32>(dimensions), "{dimensions}");
    }
}

#[test]
fn u32_rows_align_like_f32() {
    assert!(!is_cagra_aligned::<u32>(3));
    assert!(is_cagra_aligned::<u32>(8));
}

#[test]
fn wider_and_narrower_values_align_by_their_own_size() {
    assert!(is_cagra_aligned::<u8>(16));
    assert!(!is_cagra_aligned::<u8>(8));
    assert!(is_cagra_aligned::<f64>(2));
    assert!(!is_cagra_aligned::<f64>(3));
    assert!(is_cagra_aligned::<f32>(0));
}

#[test]
fn round_trip_preserves_unaligned_rows() {
    let mut device = Device::new();
    // 3 columns is not a multiple of 4, so the layout is not padded.
    let host: Vec<f32> = vec![1.0, 2.0, 3.0, 4.0, 5.0, 6.0];
    let matrix = device.upload(&host, 2, 3);

    assert_eq!(matrix.rows(), 2);
    assert_eq!(matrix.columns(), 3);
    assert_eq!(matrix.allocated_bytes(), 6 * size_of::<f32>());
    assert!(!matrix.is_cagra_padded());

    let mut out = vec![0.0; 6];
    device.download(&matrix, &mut out);
    assert_eq!(out, host);
}

#[test]
fn round_trip_preserves_aligned_rows() {
    let mut device = Device::new();
    let host: Vec<f32> = (0..8).map(|value| value as f32).collect();
    let matrix = device.upload(&host, 2, 4);

    assert_eq!(matrix.allocated_bytes(), 8 * size_of::<f32>());
    assert!(matrix.is_cagra_padded());

    let mut out = vec![0.0; 8];
    device.download(&matrix, &mut out);
    assert_eq!(out, host);
}

#[test]
fn zeros_starts_zeroed() {
    let mut device = Device::new();
    let (matrix, transfer) = DeviceMatrix::<f32>::zeros(2, 3).unwrap();
    device.run(transfer, &mut Vec::new());

    let mut out = vec![1.0; 6];
    device.download(&matrix, &mut out);
    assert_eq!(out, vec![0.0; 6]);
}

#[test]
fn from_host_rejects_mismatched_length() {
    let host: Vec<f32> = vec![1.0, 2.0, 3.0];
    let err = DeviceMatrix::from_host(&host, 2, 3).err().unwrap().to_string();
    assert!(err.contains("expected 2x3"), "got: {err}");
    assert_eq!(err, "host matrix has 3 values, expected 2x3 = 6");
}

#[test]
fn to_host_rejects_mismatched_length() {
    let (matrix, _) = DeviceMatrix::<f32>::zeros(2, 3).unwrap();
    let err = matrix.to_host(&[0.0; 7]).unwrap_err();
    assert!(matches!(
        err,
        DeviceError::HostLength { len: 7, rows: 2, columns: 3, expected: 6 }
    ));
}

#[test]
fn zeros_rejects_what_cannot_be_counted() {
    let err = DeviceMatrix::<f32>::zeros(usize::MAX, 2).err().unwrap();
    assert_eq!(
        err.to_string(),
        format!("device matrix {}x2 overflows a usize", usize::MAX)
    );
    assert!(DeviceMatrix::<f32>::zeros(usize::MAX / 4 + 1, 1).is_err());
    assert!(DeviceMatrix::<f32>::zeros(usize::MAX / 4, 1).is_ok());
    assert!(DeviceMatrix::<u8>::zeros(usize::MAX, 1).is_ok());
}

#[test]
fn huge_extents_survive_where_the_matrix_is_empty() {
    let (matrix, _) = DeviceMatrix::<f32>::zeros(usize::MAX, 0).unwrap();
    assert_eq!(matrix.rows(), usize::MAX);
    assert_eq!(matrix.columns(), 0);
    assert_eq!(matrix.allocated_bytes(), 0);
}

#[test]
fn empty_matrices_copy_nothing() {
    let mut device = Device::new();
    let none: [f32; 0] = [];
    let (matrix, upload) = DeviceMatrix::from_host(&none, 0, 3).unwrap();
    // Allocation, stream, clearing and synchronization, but no copy.
    assert_eq!(device.run(upload, &mut Vec::new()), 4);
    let download = matrix.to_host(&none).unwrap();
    assert_eq!(device.run(download, &mut Vec::new()), 0);
}

#[test]
fn a_failed_allocation_frees_nothing() {
    let (_, mut transfer) = DeviceMatrix::<f32>::zeros(2, 3).unwrap();
    assert_eq!(transfer.current(), Some(DeviceOp::Malloc { bytes: 24 }));
    let failure = transfer
        .advance(OpOutcome::Cuda {
            status: 2,
            message: "out of memory".to_string(),
        })
        .unwrap_err();
    assert!(!failure.free);
    assert_eq!(
        failure.error.to_string(),
        "cudaMalloc failed: out of memory (CUDA error 2)"
    );
    // The failed operation is still the current one.
    assert_eq!(transfer.current(), Some(DeviceOp::Malloc { bytes: 24 }));
}

#[test]
fn every_later_failure_frees_the_allocation() {
    let host = [1.0f32; 4];
    for fail_at in 1..7 {
        let (_, mut transfer) = DeviceMatrix::from_host(&host, 2, 2).unwrap();
        for _ in 0..fail_at {
            let op = transfer.current().unwrap();
            transfer.advance(succeeded(op)).unwrap();
        }
        let outcome = match transfer.current().unwrap() {
            DeviceOp::AcquireStream | DeviceOp::SyncStream => {
                OpOutcome::Library(Err("gone".to_string()))
            }
            _ => OpOutcome::Cuda {
                status: 700,
                message: "illegal address".to_string(),
            },
        };
        let failure = transfer.advance(outcome).unwrap_err();
        assert!(failure.free, "{fail_at}");
        let expected = match fail_at {
            1 | 4 => "cuVS stream: gone",
            2 => "cudaMemsetAsync failed: illegal address (CUDA error 700)",
            5 => "cudaMemcpyAsync (host to device) failed: illegal address (CUDA error 700)",
            _ => "cuVS stream sync: gone",
        };
        assert_eq!(failure.error.to_string(), expected);
    }
}

#[test]
fn a_failed_download_keeps_the_matrix() {
    let (matrix, _) = DeviceMatrix::<f32>::zeros(1, 2).unwrap();
    let mut transfer = matrix.to_host(&[0.0, 0.0]).unwrap();
    transfer.advance(OpOutcome::Library(Ok(()))).unwrap();
    let failure = transfer
        .advance(OpOutcome::Cuda {
            status: -1,
            message: "lost".to_string(),
        })
        .unwrap_err();
    assert!(!failure.free);
    assert_eq!(
        failure.error.to_string(),
        "cudaMemcpyAsync (device to host) failed: lost (CUDA error -1)"
    );
}

#[test]
fn check_cuda_accepts_only_success() {
    assert!(check_cuda(0, "cudaMalloc", "no error".to_string()).is_ok());
    let err = check_cuda(2, "cudaMalloc", "out of memory".to_string()).unwrap_err();
    assert!(matches!(err, DeviceError::Cuda { context: "cudaMalloc", status: 2, .. }));
}

#[test]
fn free_report_speaks_of_failures_only() {
    assert_eq!(free_report(0), None);
    assert_eq!(
        free_report(17),
        Some("failed to free device matrix: CUDA error 17".to_string())
    );
}

#[test]
fn debugging_output_shows_the_layout() {
    let (matrix, _) = DeviceMatrix::<f32>::zeros(2, 3).unwrap();
    assert_eq!(
        matrix.debug_text(),
        "DeviceMatrix { rows: 2, columns: 3, cagra_padded: false, bytes: 24 }"
    );
    let (matrix, _) = DeviceMatrix::<f32>::zeros(10, 128).unwrap();
    assert_eq!(
        matrix.debug_text(),
        "DeviceMatrix { rows: 10, columns: 128, cagra_padded: true, bytes: 5120 }"
    );
}
