//! Matrices in device memory: their layout, and the device operations that
//! create, fill and read them.
//!
//! Matrices are contiguous. The GPU library treats a matrix as padded when its
//! row width is a multiple of a fixed alignment, so a contiguous matrix is
//! already padded whenever its rows happen to be that wide.

use crate::text::{decimal, decimal_text, signed_decimal, signed_decimal_text};
use core::marker::PhantomData;
use vstd::layout::size_of;
use vstd::prelude::*;

verus! {

/// The status that a successful CUDA call returns.
pub const CUDA_SUCCESS: i32 = 0;

/// Rows whose width is a multiple of this count as padded.
pub const CAGRA_ROW_ALIGN_BYTES: usize = 16;

/// Whether a contiguous row of `columns` values of `T` is as wide as the GPU
/// library wants it padded.
pub open spec fn cagra_aligned<T>(columns: nat) -> bool {
    (columns * size_of::<T>()) % CAGRA_ROW_ALIGN_BYTES as nat == 0
}

/// Whether a contiguous row of `columns` values of `T` already meets the row
/// width rule.
pub fn is_cagra_aligned<T>(columns: usize) -> (aligned: bool)
    requires
        columns * size_of::<T>() <= usize::MAX,
    ensures
        aligned == cagra_aligned::<T>(columns as nat),
        aligned <==> (columns * size_of::<T>()) % 16 == 0,
{
    (columns * core::mem::size_of::<T>()).is_multiple_of(CAGRA_ROW_ALIGN_BYTES)
}

/// For values of four bytes the rule is met by every number of columns that is
/// divisible by four, and by no other.
pub proof fn law_four_byte_rows_align_by_four<T>(columns: nat)
    requires
        size_of::<T>() == 4,
    ensures
        cagra_aligned::<T>(columns) <==> columns % 4 == 0,
{
}

/// One thing that the device is asked to do.
#[derive(Clone, Copy, Debug, PartialEq, Eq, Structural)]
pub enum DeviceOp {
    /// Allocate device memory.
    Malloc { bytes: usize },
    /// Ask the GPU library for its stream.
    AcquireStream,
    /// Set the device memory to zero.
    MemsetZero { bytes: usize },
    /// Copy the host buffer into the device memory.
    CopyToDevice { bytes: usize },
    /// Copy the device memory into the host buffer.
    CopyToHost { bytes: usize },
    /// Wait for everything on the stream.
    SyncStream,
}

impl DeviceOp {
    /// Whether the CUDA runtime does it; the GPU library does the others.
    pub open spec fn is_cuda(self) -> bool {
        self !is AcquireStream && self !is SyncStream
    }

    /// What messages call it.
    pub open spec fn label(self) -> Seq<char> {
        match self {
            DeviceOp::Malloc { .. } => "cudaMalloc"@,
            DeviceOp::AcquireStream => "cuVS stream"@,
            DeviceOp::MemsetZero { .. } => "cudaMemsetAsync"@,
            DeviceOp::CopyToDevice { .. } => "cudaMemcpyAsync (host to device)"@,
            DeviceOp::CopyToHost { .. } => "cudaMemcpyAsync (device to host)"@,
            DeviceOp::SyncStream => "cuVS stream sync"@,
        }
    }

    /// What messages call it.
    pub fn context(self) -> (context: &'static str)
        ensures
            context@ == self.label(),
            context@ == match self {
                DeviceOp::Malloc { .. } => "cudaMalloc"@,
                DeviceOp::AcquireStream => "cuVS stream"@,
                DeviceOp::MemsetZero { .. } => "cudaMemsetAsync"@,
                DeviceOp::CopyToDevice { .. } => "cudaMemcpyAsync (host to device)"@,
                DeviceOp::CopyToHost { .. } => "cudaMemcpyAsync (device to host)"@,
                DeviceOp::SyncStream => "cuVS stream sync"@,
            },
    {
        match self {
            DeviceOp::Malloc { .. } => "cudaMalloc",
            DeviceOp::AcquireStream => "cuVS stream",
            DeviceOp::MemsetZero { .. } => "cudaMemsetAsync",
            DeviceOp::CopyToDevice { .. } => "cudaMemcpyAsync (host to device)",
            DeviceOp::CopyToHost { .. } => "cudaMemcpyAsync (device to host)",
            DeviceOp::SyncStream => "cuVS stream sync",
        }
    }
}

/// Why a matrix could not be created, filled or read.
#[derive(Debug)]
pub enum DeviceError {
    /// The matrix has more bytes than can be counted.
    Overflow { rows: usize, columns: usize },
    /// The host buffer does not hold as many values as the matrix.
    HostLength { len: usize, rows: usize, columns: usize, expected: usize },
    /// A CUDA call failed.
    Cuda { context: &'static str, status: i32, message: String },
    /// A call into the GPU library failed.
    Library { context: &'static str, message: String },
}

impl DeviceError {
    /// The message for this error.
    pub open spec fn message(self) -> Seq<char> {
        match self {
            DeviceError::Overflow { rows, columns } => "device matrix "@ + decimal(rows as nat)
                + "x"@ + decimal(columns as nat) + " overflows a usize"@,
            DeviceError::HostLength { len, rows, columns, expected } => "host matrix has "@
                + decimal(len as nat) + " values, expected "@ + decimal(rows as nat) + "x"@
                + decimal(columns as nat) + " = "@ + decimal(expected as nat),
            DeviceError::Cuda { context, status, message } => context@ + " failed: "@ + message@
                + " (CUDA error "@ + signed_decimal(status as int) + ")"@,
            DeviceError::Library { context, message } => context@ + ": "@ + message@,
        }
    }

    /// Puts the error into words.
    pub fn to_string(&self) -> (text: String)
        ensures
            text@ == self.message(),
            match self {
                DeviceError::Overflow { rows, columns } => text@ == "device matrix "@ + decimal(
                    *rows as nat,
                ) + "x"@ + decimal(*columns as nat) + " overflows a usize"@,
                DeviceError::HostLength { len, rows, columns, expected } => text@
                    == "host matrix has "@ + decimal(*len as nat) + " values, expected "@ + decimal(
                    *rows as nat,
                ) + "x"@ + decimal(*columns as nat) + " = "@ + decimal(*expected as nat),
                DeviceError::Cuda { context, status, message } => text@ == context@ + " failed: "@
                    + message@ + " (CUDA error "@ + signed_decimal(*status as int) + ")"@,
                DeviceError::Library { context, message } => text@ == context@ + ": "@ + message@,
            },
    {
        match self {
            DeviceError::Overflow { rows, columns } => {
                let mut text = "device matrix ".to_string();
                text.append(decimal_text(*rows as u64).as_str());
                text.append("x");
                text.append(decimal_text(*columns as u64).as_str());
                text.append(" overflows a usize");
                text
            },
            DeviceError::HostLength { len, rows, columns, expected } => {
                let mut text = "host matrix has ".to_string();
                text.append(decimal_text(*len as u64).as_str());
                text.append(" values, expected ");
                text.append(decimal_text(*rows as u64).as_str());
                text.append("x");
                text.append(decimal_text(*columns as u64).as_str());
                text.append(" = ");
                text.append(decimal_text(*expected as u64).as_str());
                text
            },
            DeviceError::Cuda { context, status, message } => {
                let mut text = (*context).to_string();
                text.append(" failed: ");
                text.append(message.as_str());
                text.append(" (CUDA error ");
                text.append(signed_decimal_text(*status).as_str());
                text.append(")");
                text
            },
            DeviceError::Library { context, message } => {
                let mut text = (*context).to_string();
                text.append(": ");
                text.append(message.as_str());
                text
            },
        }
    }
}

/// Turns the status of a CUDA call into a result. `message` is what the CUDA
/// runtime says about the status.
pub fn check_cuda(status: i32, context: &'static str, message: String) -> (result: Result<
    (),
    DeviceError,
>)
    ensures
        result is Ok <==> status == CUDA_SUCCESS,
        result is Ok <==> status == 0,
        result matches Err(e) ==> e == (DeviceError::Cuda { context, status, message }),
{
    if status == CUDA_SUCCESS {
        Ok(())
    } else {
        Err(DeviceError::Cuda { context, status, message })
    }
}

/// What is to be reported of an attempt to free device memory: nothing, unless
/// it failed.
pub fn free_report(status: i32) -> (report: Option<String>)
    ensures
        report is None <==> status == CUDA_SUCCESS,
        report is None <==> status == 0,
        report matches Some(text) ==> text@ == "failed to free device matrix: CUDA error "@
            + signed_decimal(status as int),
{
    if status == CUDA_SUCCESS {
        None
    } else {
        let mut text = "failed to free device matrix: CUDA error ".to_string();
        text.append(signed_decimal_text(status).as_str());
        Some(text)
    }
}

/// How a device operation ended.
#[derive(Debug)]
pub enum OpOutcome {
    /// The status of a CUDA call, and what the CUDA runtime says about it.
    Cuda { status: i32, message: String },
    /// The result of a call into the GPU library.
    Library(Result<(), String>),
}

impl OpOutcome {
    /// Whether this can be how `op` ended.
    pub open spec fn answers(self, op: DeviceOp) -> bool {
        self is Cuda <==> op.is_cuda()
    }

    /// Whether the operation did what it was asked.
    pub open spec fn succeeded(self) -> bool {
        match self {
            OpOutcome::Cuda { status, .. } => status == CUDA_SUCCESS,
            OpOutcome::Library(result) => result is Ok,
        }
    }

    /// The message for `op` having failed like this.
    pub open spec fn failure_message(self, op: DeviceOp) -> Seq<char> {
        match self {
            OpOutcome::Cuda { status, message } => op.label() + " failed: "@ + message@
                + " (CUDA error "@ + signed_decimal(status as int) + ")"@,
            OpOutcome::Library(result) => op.label() + ": "@ + result->Err_0@,
        }
    }
}

/// The CUDA runtime answers for allocating, clearing and copying with a status,
/// and the GPU library for its stream with a result.
pub proof fn law_each_operation_has_its_kind_of_outcome(outcome: OpOutcome, op: DeviceOp)
    ensures
        outcome.answers(op) <==> (outcome is Library <==> op is AcquireStream || op is SyncStream),
        outcome matches OpOutcome::Cuda { status, .. } ==> (outcome.succeeded() <==> status == 0),
        outcome matches OpOutcome::Library(result) ==> (outcome.succeeded() <==> result is Ok),
{
}

/// Why a transfer stopped, and whether the memory that it allocated is to be
/// freed now.
#[derive(Debug)]
pub struct Failure {
    pub error: DeviceError,
    pub free: bool,
}

/// The operations of a transfer up to `done` allocate device memory.
pub open spec fn allocates(ops: Seq<DeviceOp>, done: int) -> bool {
    exists|i: int| 0 <= i < done && (#[trigger] ops[i]) is Malloc
}

/// Device operations to perform one after another, and how far they have got.
#[derive(Debug)]
pub struct Transfer {
    ops: Vec<DeviceOp>,
    done: usize,
}

impl Transfer {
    /// All operations, in order.
    pub closed spec fn ops(&self) -> Seq<DeviceOp> {
        self.ops@
    }

    /// The number of operations that have succeeded.
    pub closed spec fn done(&self) -> int {
        self.done as int
    }

    /// Whether no more operations have succeeded than there are.
    pub closed spec fn wf(&self) -> bool {
        self.done <= self.ops@.len()
    }

    fn new(ops: Vec<DeviceOp>) -> (transfer: Self)
        ensures
            transfer.wf(),
            transfer.ops() == ops@,
            transfer.done() == 0,
    {
        Transfer { ops, done: 0 }
    }

    /// The operation to perform next; `None` when all have succeeded.
    pub fn current(&self) -> (op: Option<DeviceOp>)
        requires
            self.wf(),
        ensures
            op == if self.done() < self.ops().len() {
                Some(self.ops()[self.done()])
            } else {
                None
            },
    {
        if self.done < self.ops.len() {
            Some(self.ops[self.done])
        } else {
            None
        }
    }

    /// Takes in how the current operation ended. After a success the next one
    /// is due. After a failure nothing more is: the caller frees the memory
    /// where the transfer had allocated it.
    pub fn advance(&mut self, outcome: OpOutcome) -> (result: Result<(), Failure>)
        requires
            old(self).wf(),
            old(self).done() < old(self).ops().len(),
            outcome.answers(old(self).ops()[old(self).done()]),
        ensures
            final(self).wf(),
            final(self).ops() == old(self).ops(),
            result is Ok <==> outcome.succeeded(),
            final(self).done() == old(self).done() + if outcome.succeeded() {
                1int
            } else {
                0int
            },
            result matches Err(failure) ==> {
                &&& failure.error.message() == outcome.failure_message(
                    old(self).ops()[old(self).done()],
                )
                &&& failure.free == allocates(old(self).ops(), old(self).done())
                &&& failure.free <==> exists|i: int|
                    0 <= i < old(self).done() && (#[trigger] old(self).ops()[i]) is Malloc
            },
            match outcome {
                OpOutcome::Cuda { status, message } => {
                    &&& result is Ok <==> status == 0
                    &&& result matches Err(failure) ==> (failure.error matches DeviceError::Cuda {
                        context,
                        status: s,
                        message: m,
                    } && context@ == old(self).ops()[old(self).done()].label() && s == status && m
                        == message)
                },
                OpOutcome::Library(called) => {
                    &&& result is Ok <==> called is Ok
                    &&& result matches Err(failure) ==> (failure.error matches DeviceError::Library {
                        context,
                        message: m,
                    } && context@ == old(self).ops()[old(self).done()].label() && Err::<(), String>(m)
                        == called)
                },
            },
    {
        let op: DeviceOp = self.ops[self.done];
        let checked: Result<(), DeviceError> = match outcome {
            OpOutcome::Cuda { status, message } => check_cuda(status, op.context(), message),
            OpOutcome::Library(result) => match result {
                Ok(_) => Ok(()),
                Err(message) => Err(DeviceError::Library { context: op.context(), message }),
            },
        };
        match checked {
            Ok(_) => {
                assert(self.done < self.ops.len());
                self.done = self.done + 1;
                Ok(())
            },
            Err(error) => Err(Failure { error, free: self.has_allocated() }),
        }
    }

    /// Whether one of the operations that succeeded has allocated memory.
    fn has_allocated(&self) -> (allocated: bool)
        requires
            self.wf(),
        ensures
            allocated == allocates(self.ops(), self.done()),
    {
        let mut i: usize = 0;
        while i < self.done
            invariant
                i <= self.done <= self.ops@.len(),
                forall|j: int| 0 <= j < i ==> (#[trigger] self.ops@[j]) !is Malloc,
            decreases self.done - i,
        {
            match self.ops[i] {
                DeviceOp::Malloc { .. } => {
                    return true;
                },
                _ => {},
            }
            i = i + 1;
        }
        false
    }
}

/// What it takes to create a matrix of `bytes` bytes that are all zero.
pub open spec fn zero_ops(bytes: usize) -> Seq<DeviceOp> {
    seq![
        DeviceOp::Malloc { bytes },
        DeviceOp::AcquireStream,
        DeviceOp::MemsetZero { bytes },
        DeviceOp::SyncStream,
    ]
}

/// What it takes to create a matrix of `bytes` bytes and fill it from the host.
pub open spec fn upload_ops(bytes: usize) -> Seq<DeviceOp> {
    if bytes == 0 {
        zero_ops(bytes)
    } else {
        zero_ops(bytes) + seq![
            DeviceOp::AcquireStream,
            DeviceOp::CopyToDevice { bytes },
            DeviceOp::SyncStream,
        ]
    }
}

/// What it takes to read `bytes` bytes back to the host.
pub open spec fn download_ops(bytes: usize) -> Seq<DeviceOp> {
    if bytes == 0 {
        Seq::empty()
    } else {
        seq![
            DeviceOp::AcquireStream,
            DeviceOp::CopyToHost { bytes },
            DeviceOp::SyncStream,
        ]
    }
}

/// Whether a matrix has more values, or more bytes, than can be counted.
pub open spec fn overflows<T>(rows: usize, columns: usize) -> bool {
    ||| rows * columns > usize::MAX
    ||| rows * columns * size_of::<T>() > usize::MAX
}

/// The layout of a contiguous row-major matrix of `rows x columns` values in
/// device memory.
pub struct DeviceMatrix<T> {
    bytes: usize,
    /// Extent handed to the GPU library: rows, then columns.
    shape: [i64; 2],
    _marker: PhantomData<T>,
}

impl<T> DeviceMatrix<T> {
    /// The number of rows.
    pub closed spec fn spec_rows(&self) -> usize {
        self.shape@[0] as usize
    }

    /// The number of values in a row.
    pub closed spec fn spec_columns(&self) -> usize {
        self.shape@[1] as usize
    }

    /// The number of bytes in the matrix.
    pub closed spec fn spec_bytes(&self) -> usize {
        self.bytes
    }

    /// Whether the number of bytes is that of the values.
    pub open spec fn wf(&self) -> bool {
        &&& !overflows::<T>(self.spec_rows(), self.spec_columns())
        &&& self.spec_bytes() == self.spec_rows() * self.spec_columns() * size_of::<T>()
    }

    /// Lays out a `rows x columns` matrix, and says what creates it with every
    /// byte zero.
    pub fn zeros(rows: usize, columns: usize) -> (created: Result<(Self, Transfer), DeviceError>)
        ensures
            created is Ok <==> !overflows::<T>(rows, columns),
            created matches Ok((matrix, transfer)) ==> {
                &&& matrix.wf()
                &&& matrix.spec_rows() == rows
                &&& matrix.spec_columns() == columns
                &&& transfer.wf()
                &&& transfer.done() == 0
                &&& transfer.ops() == zero_ops(matrix.spec_bytes())
                &&& matrix.spec_bytes() == rows * columns * size_of::<T>()
                &&& transfer.ops() == seq![
                    DeviceOp::Malloc { bytes: matrix.spec_bytes() },
                    DeviceOp::AcquireStream,
                    DeviceOp::MemsetZero { bytes: matrix.spec_bytes() },
                    DeviceOp::SyncStream,
                ]
            },
            created is Ok <==> rows * columns <= usize::MAX && rows * columns * size_of::<T>()
                <= usize::MAX,
            created matches Err(e) ==> e == (DeviceError::Overflow { rows, columns }),
    {
        let elements: usize = match rows.checked_mul(columns) {
            Some(elements) => elements,
            None => return Err(DeviceError::Overflow { rows, columns }),
        };
        let bytes: usize = match elements.checked_mul(core::mem::size_of::<T>()) {
            Some(bytes) => bytes,
            None => return Err(DeviceError::Overflow { rows, columns }),
        };
        proof {
            assert((rows as i64) as usize == rows) by (bit_vector);
            assert((columns as i64) as usize == columns) by (bit_vector);
        }
        let matrix = DeviceMatrix {
            bytes,
            shape: [rows as i64, columns as i64],
            _marker: PhantomData,
        };
        let ops: Vec<DeviceOp> = vec![
            DeviceOp::Malloc { bytes },
            DeviceOp::AcquireStream,
            DeviceOp::MemsetZero { bytes },
            DeviceOp::SyncStream,
        ];
        assert(ops@ =~= zero_ops(bytes));
        Ok((matrix, Transfer::new(ops)))
    }

    /// Lays out a `rows x columns` matrix for the values of `host`, and says
    /// what creates it and fills it with them.
    pub fn from_host(host: &[T], rows: usize, columns: usize) -> (created: Result<
        (Self, Transfer),
        DeviceError,
    >)
        requires
            rows * columns <= usize::MAX,
        ensures
            created is Ok <==> host@.len() == rows * columns && !overflows::<T>(rows, columns),
            created matches Ok((matrix, transfer)) ==> {
                &&& matrix.wf()
                &&& matrix.spec_rows() == rows
                &&& matrix.spec_columns() == columns
                &&& transfer.wf()
                &&& transfer.done() == 0
                &&& transfer.ops() == upload_ops(matrix.spec_bytes())
                &&& matrix.spec_bytes() == rows * columns * size_of::<T>()
                &&& transfer.ops() == if rows * columns * size_of::<T>() == 0 {
                    seq![
                        DeviceOp::Malloc { bytes: matrix.spec_bytes() },
                        DeviceOp::AcquireStream,
                        DeviceOp::MemsetZero { bytes: matrix.spec_bytes() },
                        DeviceOp::SyncStream,
                    ]
                } else {
                    seq![
                        DeviceOp::Malloc { bytes: matrix.spec_bytes() },
                        DeviceOp::AcquireStream,
                        DeviceOp::MemsetZero { bytes: matrix.spec_bytes() },
                        DeviceOp::SyncStream,
                        DeviceOp::AcquireStream,
                        DeviceOp::CopyToDevice { bytes: matrix.spec_bytes() },
                        DeviceOp::SyncStream,
                    ]
                }
            },
            created is Ok <==> host@.len() == rows * columns && rows * columns * size_of::<T>()
                <= usize::MAX,
            created matches Err(e) ==> if host@.len() != rows * columns {
                e == (DeviceError::HostLength {
                    len: host@.len() as usize,
                    rows,
                    columns,
                    expected: (rows * columns) as usize,
                })
            } else {
                e == (DeviceError::Overflow { rows, columns })
            },
    {
        let expected: usize = rows * columns;
        let len: usize = host.len();
        if len != expected {
            return Err(DeviceError::HostLength { len, rows, columns, expected });
        }
        let (matrix, mut transfer) = match Self::zeros(rows, columns) {
            Ok(created) => created,
            Err(err) => return Err(err),
        };
        if matrix.bytes == 0 {
            return Ok((matrix, transfer));
        }
        transfer.ops.push(DeviceOp::AcquireStream);
        transfer.ops.push(DeviceOp::CopyToDevice { bytes: matrix.bytes });
        transfer.ops.push(DeviceOp::SyncStream);
        assert(transfer.ops@ =~= upload_ops(matrix.bytes));
        Ok((matrix, transfer))
    }

    /// Says what reads the matrix back into `host`.
    pub fn to_host(&self, host: &[T]) -> (transfer: Result<Transfer, DeviceError>)
        requires
            self.wf(),
        ensures
            transfer is Ok <==> host@.len() == self.spec_rows() * self.spec_columns(),
            transfer matches Ok(t) ==> {
                &&& t.wf()
                &&& t.done() == 0
                &&& t.ops() == download_ops(self.spec_bytes())
                &&& t.ops() == if self.spec_bytes() == 0 {
                    seq![]
                } else {
                    seq![
                        DeviceOp::AcquireStream,
                        DeviceOp::CopyToHost { bytes: self.spec_bytes() },
                        DeviceOp::SyncStream,
                    ]
                }
            },
            transfer matches Err(e) ==> e == (DeviceError::HostLength {
                len: host@.len() as usize,
                rows: self.spec_rows(),
                columns: self.spec_columns(),
                expected: (self.spec_rows() * self.spec_columns()) as usize,
            }),
    {
        let rows: usize = self.rows();
        let columns: usize = self.columns();
        let expected: usize = rows * columns;
        let len: usize = host.len();
        if len != expected {
            return Err(DeviceError::HostLength { len, rows, columns, expected });
        }
        if self.bytes == 0 {
            return Ok(Transfer::new(Vec::new()));
        }
        let ops: Vec<DeviceOp> = vec![
            DeviceOp::AcquireStream,
            DeviceOp::CopyToHost { bytes: self.bytes },
            DeviceOp::SyncStream,
        ];
        assert(ops@ =~= download_ops(self.bytes));
        Ok(Transfer::new(ops))
    }

    /// The number of rows.
    pub fn rows(&self) -> (rows: usize)
        ensures
            rows == self.spec_rows(),
    {
        self.shape[0] as usize
    }

    /// The number of values in a row.
    pub fn columns(&self) -> (columns: usize)
        ensures
            columns == self.spec_columns(),
    {
        self.shape[1] as usize
    }

    /// Bytes occupied by the device allocation.
    pub fn allocated_bytes(&self) -> (bytes: usize)
        ensures
            bytes == self.spec_bytes(),
    {
        self.bytes
    }

    /// The text that debugging output shows for this matrix.
    pub open spec fn spec_debug_text(&self) -> Seq<char> {
        "DeviceMatrix { rows: "@ + decimal(self.spec_rows() as nat) + ", columns: "@ + decimal(
            self.spec_columns() as nat,
        ) + ", cagra_padded: "@ + (if cagra_aligned::<T>(self.spec_columns() as nat) {
            "true"@
        } else {
            "false"@
        }) + ", bytes: "@ + decimal(self.spec_bytes() as nat) + " }"@
    }

    /// The text that debugging output shows for this matrix; the values stay on
    /// the device.
    pub fn debug_text(&self) -> (text: String)
        requires
            self.spec_columns() * size_of::<T>() <= usize::MAX,
        ensures
            text@ == self.spec_debug_text(),
            text@ == "DeviceMatrix { rows: "@ + decimal(self.spec_rows() as nat) + ", columns: "@
                + decimal(self.spec_columns() as nat) + ", cagra_padded: "@ + (if (
            self.spec_columns() * size_of::<T>()) % 16 == 0 {
                "true"@
            } else {
                "false"@
            }) + ", bytes: "@ + decimal(self.spec_bytes() as nat) + " }"@,
    {
        let mut text = "DeviceMatrix { rows: ".to_string();
        text.append(decimal_text(self.rows() as u64).as_str());
        text.append(", columns: ");
        text.append(decimal_text(self.columns() as u64).as_str());
        text.append(", cagra_padded: ");
        text.append(
            if self.is_cagra_padded() {
                "true"
            } else {
                "false"
            },
        );
        text.append(", bytes: ");
        text.append(decimal_text(self.allocated_bytes() as u64).as_str());
        text.append(" }");
        text
    }

    /// Whether the GPU library sees this matrix as padded.
    pub fn is_cagra_padded(&self) -> (padded: bool)
        requires
            self.spec_columns() * size_of::<T>() <= usize::MAX,
        ensures
            padded == cagra_aligned::<T>(self.spec_columns() as nat),
            padded <==> (self.spec_columns() * size_of::<T>()) % 16 == 0,
    {
        is_cagra_aligned::<T>(self.columns())
    }
}

/// Memory as device operations see it: what an allocation finds in fresh memory,
/// the device memory of the matrix once there is any, the host buffer, and the
/// work that was put on the stream and is not known to be done.
#[verifier::ext_equal]
pub struct Memory {
    pub fresh: spec_fn(int) -> u8,
    pub device: Seq<u8>,
    pub host: Seq<u8>,
    pub stream: Seq<DeviceOp>,
}

impl Memory {
    /// Memory once one piece of work from the stream is done.
    pub open spec fn worked(self, op: DeviceOp) -> Memory {
        match op {
            DeviceOp::MemsetZero { bytes } => Memory {
                device: Seq::new(bytes as nat, |i: int| 0u8) + self.device.skip(bytes as int),
                ..self
            },
            DeviceOp::CopyToDevice { bytes } => Memory {
                device: self.host.take(bytes as int) + self.device.skip(bytes as int),
                ..self
            },
            DeviceOp::CopyToHost { bytes } => Memory {
                host: self.device.take(bytes as int) + self.host.skip(bytes as int),
                ..self
            },
            _ => self,
        }
    }

    /// Memory once a run of work from the stream is done.
    pub open spec fn worked_all(self, work: Seq<DeviceOp>) -> Memory
        decreases work.len(),
    {
        if work.len() == 0 {
            self
        } else {
            self.worked(work.first()).worked_all(work.drop_first())
        }
    }

    /// Memory after one operation has succeeded. Clearing and copying only put
    /// work on the stream: memory changes when the stream is waited for.
    pub open spec fn after(self, op: DeviceOp) -> Memory {
        match op {
            DeviceOp::Malloc { bytes } => Memory {
                device: Seq::new(bytes as nat, self.fresh),
                ..self
            },
            DeviceOp::MemsetZero { .. } => Memory { stream: self.stream.push(op), ..self },
            DeviceOp::CopyToDevice { .. } => Memory { stream: self.stream.push(op), ..self },
            DeviceOp::CopyToHost { .. } => Memory { stream: self.stream.push(op), ..self },
            DeviceOp::SyncStream => Memory {
                stream: Seq::empty(),
                ..self.worked_all(self.stream)
            },
            DeviceOp::AcquireStream => self,
        }
    }

    /// Memory after a run of operations has succeeded.
    pub open spec fn after_all(self, ops: Seq<DeviceOp>) -> Memory
        decreases ops.len(),
    {
        if ops.len() == 0 {
            self
        } else {
            self.after(ops.first()).after_all(ops.drop_first())
        }
    }
}

/// A run of operations is its first part followed by the rest.
proof fn lemma_after_all_in_parts(memory: Memory, first: Seq<DeviceOp>, rest: Seq<DeviceOp>)
    ensures
        memory.after_all(first + rest) == memory.after_all(first).after_all(rest),
    decreases first.len(),
{
    if first.len() == 0 {
        assert(first + rest =~= rest);
    } else {
        assert((first + rest).first() == first.first());
        assert((first + rest).drop_first() =~= first.drop_first() + rest);
        lemma_after_all_in_parts(memory.after(first.first()), first.drop_first(), rest);
    }
}

/// A piece of work on an idle stream is done once the stream was acquired for it
/// and waited for.
proof fn lemma_waited_for(memory: Memory, op: DeviceOp)
    requires
        memory.stream.len() == 0,
        op is MemsetZero || op is CopyToDevice || op is CopyToHost,
    ensures
        memory.after_all(seq![DeviceOp::AcquireStream, op, DeviceOp::SyncStream]) == (Memory {
            stream: Seq::empty(),
            ..memory.worked(op)
        }),
{
    let ops = seq![DeviceOp::AcquireStream, op, DeviceOp::SyncStream];
    reveal_with_fuel(Memory::after_all, 4);
    reveal_with_fuel(Memory::worked_all, 2);
    assert(ops.drop_first() =~= seq![op, DeviceOp::SyncStream]);
    assert(ops.drop_first().drop_first() =~= seq![DeviceOp::SyncStream]);
    let queued = memory.after(op);
    assert(queued.stream =~= seq![op]);
    assert(queued.stream.drop_first() =~= Seq::empty());
    assert(memory.after_all(ops) =~= (Memory { stream: Seq::empty(), ..memory.worked(op) }));
}

/// A matrix starts out with every byte zero, and creating it leaves the host
/// alone and nothing under way.
pub proof fn law_zeros_starts_zeroed(memory: Memory, bytes: usize)
    requires
        memory.stream.len() == 0,
    ensures
        memory.after_all(zero_ops(bytes)).device == Seq::new(bytes as nat, |i: int| 0u8),
        memory.after_all(zero_ops(bytes)).host == memory.host,
        memory.after_all(zero_ops(bytes)).stream.len() == 0,
{
    let malloc = DeviceOp::Malloc { bytes };
    let clear = DeviceOp::MemsetZero { bytes };
    let zeros = Seq::new(bytes as nat, |i: int| 0u8);
    let ops = zero_ops(bytes);
    assert(ops.drop_first() =~= seq![DeviceOp::AcquireStream, clear, DeviceOp::SyncStream]);
    lemma_waited_for(memory.after(malloc), clear);
    assert(zeros + Seq::new(bytes as nat, memory.fresh).skip(bytes as int) =~= zeros);
}

/// A filled matrix holds what the host buffer held, which keeps it, and nothing
/// is left under way.
pub proof fn law_upload_copies_the_host(memory: Memory, bytes: usize)
    requires
        memory.stream.len() == 0,
        memory.host.len() == bytes,
    ensures
        memory.after_all(upload_ops(bytes)).device == memory.host,
        memory.after_all(upload_ops(bytes)).host == memory.host,
        memory.after_all(upload_ops(bytes)).stream.len() == 0,
{
    law_zeros_starts_zeroed(memory, bytes);
    if bytes == 0 {
        assert(memory.after_all(upload_ops(bytes)).device =~= memory.host);
    } else {
        let copy = DeviceOp::CopyToDevice { bytes };
        lemma_after_all_in_parts(
            memory,
            zero_ops(bytes),
            seq![DeviceOp::AcquireStream, copy, DeviceOp::SyncStream],
        );
        lemma_waited_for(memory.after_all(zero_ops(bytes)), copy);
        assert(memory.after_all(upload_ops(bytes)).device =~= memory.host);
    }
}

/// Reading a matrix back gives the host buffer what the device holds, whatever
/// the buffer held before, and leaves the device alone and nothing under way.
pub proof fn law_download_copies_the_device(memory: Memory, bytes: usize)
    requires
        memory.stream.len() == 0,
        memory.device.len() == bytes,
        memory.host.len() == bytes,
    ensures
        memory.after_all(download_ops(bytes)).host == memory.device,
        memory.after_all(download_ops(bytes)).device == memory.device,
        memory.after_all(download_ops(bytes)).stream.len() == 0,
{
    if bytes == 0 {
        assert(memory.host =~= memory.device);
    } else {
        let copy = DeviceOp::CopyToHost { bytes };
        lemma_waited_for(memory, copy);
        assert(memory.after_all(download_ops(bytes)).host =~= memory.device);
    }
}

/// What was uploaded comes back: a buffer of the same size, read after an
/// upload, ends up with the uploaded bytes.
pub proof fn law_round_trip_preserves_the_host(memory: Memory, buffer: Seq<u8>, bytes: usize)
    requires
        memory.stream.len() == 0,
        memory.host.len() == bytes,
        buffer.len() == bytes,
    ensures
        (Memory { host: buffer, ..memory.after_all(upload_ops(bytes)) }).after_all(
            download_ops(bytes),
        ).host == memory.host,
{
    law_upload_copies_the_host(memory, bytes);
    law_download_copies_the_device(
        Memory { host: buffer, ..memory.after_all(upload_ops(bytes)) },
        bytes,
    );
}

/// Every operation of a transfer that only puts work on the stream comes after
/// the stream was acquired, and is followed by waiting for the stream: no
/// transfer ends with work under way.
pub proof fn law_asynchronous_work_is_waited_for(bytes: usize, ops: Seq<DeviceOp>, i: int)
    requires
        ops == zero_ops(bytes) || ops == upload_ops(bytes) || ops == download_ops(bytes),
        0 <= i < ops.len(),
        ops[i] is MemsetZero || ops[i] is CopyToDevice || ops[i] is CopyToHost,
    ensures
        exists|j: int| i < j < ops.len() && (#[trigger] ops[j]) is SyncStream,
        exists|j: int| 0 <= j < i && (#[trigger] ops[j]) is AcquireStream,
        ops.last() is SyncStream,
{
    assert(ops[i + 1] is SyncStream);
    assert(ops[i - 1] is AcquireStream);
}

/// No transfer touches more device memory than the matrix has, and one that
/// fills or reads a matrix with bytes in it copies all of them.
pub proof fn law_transfers_copy_the_whole_matrix(bytes: usize, i: int)
    requires
        0 <= i,
    ensures
        i < upload_ops(bytes).len() ==> match upload_ops(bytes)[i] {
            DeviceOp::Malloc { bytes: size } => i == 0 && size == bytes,
            DeviceOp::MemsetZero { bytes: size } => size == bytes,
            DeviceOp::CopyToDevice { bytes: size } => size == bytes && bytes > 0,
            DeviceOp::CopyToHost { .. } => false,
            _ => true,
        },
        i < download_ops(bytes).len() ==> match download_ops(bytes)[i] {
            DeviceOp::CopyToHost { bytes: size } => size == bytes && bytes > 0,
            DeviceOp::AcquireStream => true,
            DeviceOp::SyncStream => true,
            _ => false,
        },
        bytes > 0 ==> exists|k: int|
            0 <= k < upload_ops(bytes).len() && (#[trigger] upload_ops(bytes)[k]) is CopyToDevice,
        bytes > 0 ==> exists|k: int|
            0 <= k < download_ops(bytes).len() && (#[trigger] download_ops(bytes)[k]) is CopyToHost,
{
    if bytes > 0 {
        assert(upload_ops(bytes)[5] is CopyToDevice);
        assert(download_ops(bytes)[1] is CopyToHost);
    }
}

/// A transfer that creates a matrix frees memory on failure exactly when its
/// allocation had succeeded; one that reads a matrix never frees it.
pub proof fn law_failed_transfers_free_what_they_allocated(bytes: usize, done: int)
    requires
        0 <= done,
    ensures
        allocates(zero_ops(bytes), done) <==> done > 0,
        allocates(upload_ops(bytes), done) <==> done > 0,
        done <= download_ops(bytes).len() ==> !allocates(download_ops(bytes), done),
{
    assert(zero_ops(bytes)[0] is Malloc);
    assert(upload_ops(bytes)[0] is Malloc);
}

} // verus!
