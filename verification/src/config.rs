//! The benchmark's configuration surface.
//!
//! Chunk size, chunk count, the target file name, the optional workspace
//! directory name and the two delays are fixed per run. The two constructors
//! hold the documented defaults of the two observed variants: a dedicated
//! workspace subdirectory with 10240-byte chunks, and a fixed file name in
//! the volume root with 2048-byte chunks.

use vstd::prelude::*;

verus! {

/// Fixed delay between failed mount attempts, in milliseconds.
pub const MOUNT_RETRY_DELAY_MS: u64 = 50;

/// One benchmark configuration.
pub struct BenchConfig {
    /// Bytes per individual read or write call.
    pub chunk_size: usize,
    /// Chunks per pass; total bytes per pass = `chunk_size * chunk_count`.
    pub chunk_count: usize,
    /// Name of the benchmark file, deleted and recreated every cycle.
    pub target_name: Vec<u8>,
    /// Name of the workspace directory under the volume root, or `None` to
    /// target the root directory itself.
    pub workspace_name: Option<Vec<u8>>,
    /// Delay between failed mount attempts, in milliseconds.
    pub mount_retry_delay_ms: u64,
    /// Optional pause between benchmark cycles, in milliseconds.
    pub inter_cycle_delay_ms: u64,
}

impl BenchConfig {
    /// A configuration is valid when a pass transfers at least one chunk of
    /// at least one byte, and the total byte count of a pass fits the
    /// machine's address range.
    pub open spec fn wf(self) -> bool {
        &&& self.chunk_size >= 1
        &&& self.chunk_count >= 1
        &&& self.chunk_size * self.chunk_count <= usize::MAX
    }

    /// Total bytes transferred by one pass: `chunk_size * chunk_count`,
    /// exactly — the numerator of every throughput sample.
    pub fn total_bytes(&self) -> (r: usize)
        requires
            self.wf(),
        ensures
            r == self.chunk_size * self.chunk_count,
    {
        self.chunk_size * self.chunk_count
    }

    /// The workspace-subdirectory variant: 10240-byte chunks, 100 per pass,
    /// file `NonPar` inside directory `ST`.
    pub fn workspace_variant() -> (r: BenchConfig)
        ensures
            r.wf(),
            r.chunk_size == 10240,
            r.chunk_count == 100,
            r.target_name@ == seq![78u8, 111u8, 110u8, 80u8, 97u8, 114u8],
            r.workspace_name matches Some(d) && d@ == seq![83u8, 84u8],
            r.mount_retry_delay_ms == MOUNT_RETRY_DELAY_MS,
            r.inter_cycle_delay_ms == 0,
    {
        let mut dir: Vec<u8> = Vec::new();
        dir.push(83);
        dir.push(84);
        proof {
            assert(dir@ =~= seq![83u8, 84u8]);
        }
        BenchConfig {
            chunk_size: 10240,
            chunk_count: 100,
            target_name: target_file_name(),
            workspace_name: Some(dir),
            mount_retry_delay_ms: MOUNT_RETRY_DELAY_MS,
            inter_cycle_delay_ms: 0,
        }
    }

    /// The root-directory variant: 2048-byte chunks, 1000 per pass, file
    /// `NonPar` directly in the volume root.
    pub fn root_variant() -> (r: BenchConfig)
        ensures
            r.wf(),
            r.chunk_size == 2048,
            r.chunk_count == 1000,
            r.target_name@ == seq![78u8, 111u8, 110u8, 80u8, 97u8, 114u8],
            r.workspace_name is None,
            r.mount_retry_delay_ms == MOUNT_RETRY_DELAY_MS,
            r.inter_cycle_delay_ms == 0,
    {
        BenchConfig {
            chunk_size: 2048,
            chunk_count: 1000,
            target_name: target_file_name(),
            workspace_name: None,
            mount_retry_delay_ms: MOUNT_RETRY_DELAY_MS,
            inter_cycle_delay_ms: 0,
        }
    }
}

/// The fixed benchmark file name, `NonPar`, shared by both variants.
fn target_file_name() -> (r: Vec<u8>)
    ensures
        r@ == seq![78u8, 111u8, 110u8, 80u8, 97u8, 114u8],
{
    let mut name: Vec<u8> = Vec::new();
    name.push(78);
    name.push(111);
    name.push(110);
    name.push(80);
    name.push(97);
    name.push(114);
    proof {
        assert(name@ =~= seq![78u8, 111u8, 110u8, 80u8, 97u8, 114u8]);
    }
    name
}

} // verus!
