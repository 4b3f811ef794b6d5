//! The I/O benchmark passes over an in-memory directory model.
//!
//! On hardware the passes run against a FAT directory on the storage medium;
//! the filesystem driver is an external collaborator, and the unverified
//! driver loop steps the pass state machine of [`crate::driver`] against it.
//! The logic of a pass — best-effort delete, recreate, transfer a fixed
//! number of fixed-size chunks, close — is verified here against a directory
//! model that holds each file's bytes, which is also what makes the
//! round-trip and idempotence laws of the passes statable and provable.

use vstd::prelude::*;

verus! {

/// The constant byte pattern every written chunk is filled with.
pub const PATTERN_BYTE: u8 = 0xCC;

/// `len` bytes of the write pattern: what a write pass leaves in the file.
pub open spec fn pattern_data(len: nat) -> Seq<u8> {
    Seq::new(len, |i: int| PATTERN_BYTE)
}

/// Errors a directory operation can report to its caller. A missing file on
/// delete is the one tolerated failure of the design; everything else the
/// orchestration treats as fatal.
#[derive(Clone, Copy, Debug, PartialEq, Eq, Structural)]
pub enum FsError {
    /// The named file does not exist in the directory.
    NotFound,
}

/// One file: a name and its bytes.
struct MemFile {
    name: Vec<u8>,
    data: Vec<u8>,
}

/// An in-memory directory: the files it holds, with pairwise distinct names.
pub struct MemDir {
    files: Vec<MemFile>,
}

impl MemDir {
    /// No two files share a name.
    pub closed spec fn wf(self) -> bool {
        forall|i: int, j: int|
            0 <= i < j < self.files@.len() ==> self.files@[i].name@ != self.files@[j].name@
    }

    /// A file named `name` exists in the directory.
    pub closed spec fn has_file(self, name: Seq<u8>) -> bool {
        exists|i: int| 0 <= i < self.files@.len() && self.files@[i].name@ == name
    }

    /// The bytes of the file named `name` (meaningful when `has_file` holds
    /// of a well-formed directory).
    pub closed spec fn file_data(self, name: Seq<u8>) -> Seq<u8> {
        let i = choose|i: int| 0 <= i < self.files@.len() && self.files@[i].name@ == name;
        self.files@[i].data@
    }

    /// An empty directory.
    pub fn new() -> (r: MemDir)
        ensures
            r.wf(),
            forall|n: Seq<u8>| !r.has_file(n),
    {
        MemDir { files: Vec::new() }
    }

    /// The index of the file named `name`, if it exists.
    fn find(&self, name: &Vec<u8>) -> (r: Option<usize>)
        ensures
            r matches Some(i) ==> i < self.files@.len() && self.files@[i as int].name@ == name@,
            r is None ==> !self.has_file(name@),
    {
        let n = self.files.len();
        let mut i: usize = 0;
        while i < n
            invariant
                i <= n,
                n == self.files@.len(),
                forall|j: int| 0 <= j < i ==> self.files@[j].name@ != name@,
            decreases n - i,
        {
            if bytes_equal(&self.files[i].name, name) {
                return Some(i);
            }
            i = i + 1;
        }
        None
    }

    /// Removes the file named `name`. `Ok` exactly when it existed; a missing
    /// file reports `NotFound`. Every other file keeps its bytes.
    pub fn delete_file_in_dir(&mut self, name: &Vec<u8>) -> (r: Result<(), FsError>)
        requires
            old(self).wf(),
        ensures
            final(self).wf(),
            !final(self).has_file(name@),
            forall|n: Seq<u8>|
                n != name@ ==> final(self).has_file(n) == old(self).has_file(n),
            forall|n: Seq<u8>|
                n != name@ && old(self).has_file(n) ==> final(self).file_data(n) == old(
                    self,
                ).file_data(n),
            r is Ok <==> old(self).has_file(name@),
            r matches Err(e) ==> e == FsError::NotFound,
    {
        match self.find(name) {
            None => Err(FsError::NotFound),
            Some(i) => {
                let ghost s1 = self.files@;
                let _removed = self.files.remove(i);
                proof {
                    s1.remove_ensures(i as int);
                    let s2 = self.files@;
                    assert(old(self).has_file(name@)) by {
                        assert(s1[i as int].name@ == name@);
                    }
                    assert forall|a: int, b: int|
                        0 <= a < b < s2.len() implies s2[a].name@ != s2[b].name@ by {
                        let a1: int = if a < i as int {
                            a
                        } else {
                            a + 1
                        };
                        let b1: int = if b < i as int {
                            b
                        } else {
                            b + 1
                        };
                        assert(s2[a] == s1[a1]);
                        assert(s2[b] == s1[b1]);
                        lemma_wf_distinct(*old(self), a1, b1);
                    }
                    assert forall|k: int| 0 <= k < s2.len() implies s2[k].name@ != name@ by {
                        let k1: int = if k < i as int {
                            k
                        } else {
                            k + 1
                        };
                        assert(s2[k] == s1[k1]);
                        if k1 != i as int {
                            lemma_wf_distinct(*old(self), k1, i as int);
                        }
                    }
                    assert(!self.has_file(name@));
                    assert forall|n: Seq<u8>|
                        n != name@ implies self.has_file(n) == old(self).has_file(n) by {
                        if self.has_file(n) {
                            let k = choose|k: int|
                                0 <= k < s2.len() && s2[k].name@ == n;
                            let k1: int = if k < i as int {
                                k
                            } else {
                                k + 1
                            };
                            assert(s1[k1].name@ == n);
                            assert(old(self).has_file(n));
                        }
                        if old(self).has_file(n) {
                            let k = choose|k: int|
                                0 <= k < s1.len() && s1[k].name@ == n;
                            assert(k != i as int);
                            let k2: int = if k < i as int {
                                k
                            } else {
                                k - 1
                            };
                            assert(s2[k2] == s1[k]);
                            assert(self.has_file(n));
                        }
                    }
                    assert forall|n: Seq<u8>|
                        n != name@ && old(self).has_file(n) implies self.file_data(n) == old(
                        self,
                    ).file_data(n) by {
                        let k = choose|k: int|
                            0 <= k < s1.len() && s1[k].name@ == n;
                        assert(k != i as int);
                        let k2: int = if k < i as int {
                            k
                        } else {
                            k - 1
                        };
                        assert(s2[k2] == s1[k]);
                        lemma_file_data_at(*old(self), k);
                        lemma_file_data_at(*self, k2);
                    }
                }
                Ok(())
            },
        }
    }
}

/// What one write pass leaves behind: the directory is still well formed,
/// the target file exists and holds exactly the pattern bytes of the pass,
/// and every other file is untouched.
pub open spec fn write_pass_post(pre: MemDir, post: MemDir, name: Seq<u8>, total: nat) -> bool {
    &&& post.wf()
    &&& post.has_file(name)
    &&& post.file_data(name) == pattern_data(total)
    &&& forall|n: Seq<u8>| n != name ==> post.has_file(n) == pre.has_file(n)
    &&& forall|n: Seq<u8>|
        n != name && pre.has_file(n) ==> post.file_data(n) == pre.file_data(n)
}

impl MemDir {
    /// One write pass: best-effort delete of `name` (a missing file is the
    /// expected steady state and is absorbed), then recreate the file and
    /// write `chunk_count` chunks of `chunk_size` pattern bytes sequentially,
    /// from a buffer filled once and reused across chunks. It succeeds on
    /// every well-formed directory — in particular, a pre-existing file of
    /// the same name never makes it fail — and returns the pass's total byte
    /// count, the numerator of its throughput sample.
    #[verifier::loop_isolation(false)]
    pub fn run_write_pass(
        &mut self,
        name: &Vec<u8>,
        chunk_size: usize,
        chunk_count: usize,
    ) -> (total: usize)
        requires
            old(self).wf(),
            chunk_size * chunk_count <= usize::MAX,
        ensures
            write_pass_post(*old(self), *final(self), name@, (chunk_size * chunk_count) as nat),
            total == chunk_size * chunk_count,
    {
        let _ = self.delete_file_in_dir(name);
        let ghost d1 = *self;
        let mut buf: Vec<u8> = Vec::new();
        let mut k: usize = 0;
        while k < chunk_size
            invariant
                k <= chunk_size,
                buf@.len() == k,
                forall|t: int| 0 <= t < k ==> buf@[t] == PATTERN_BYTE,
            decreases chunk_size - k,
        {
            buf.push(PATTERN_BYTE);
            k = k + 1;
        }
        let mut data: Vec<u8> = Vec::new();
        let mut c: usize = 0;
        while c < chunk_count
            invariant
                c <= chunk_count,
                data@.len() == c * chunk_size,
                forall|t: int| 0 <= t < data@.len() ==> data@[t] == PATTERN_BYTE,
            decreases chunk_count - c,
        {
            let mut j: usize = 0;
            while j < chunk_size
                invariant
                    j <= chunk_size,
                    data@.len() == c * chunk_size + j,
                    forall|t: int| 0 <= t < data@.len() ==> data@[t] == PATTERN_BYTE,
                decreases chunk_size - j,
            {
                data.push(buf[j]);
                j = j + 1;
            }
            proof {
                assert(c * chunk_size + chunk_size == (c + 1) * chunk_size) by (nonlinear_arith);
            }
            c = c + 1;
        }
        proof {
            assert(chunk_count * chunk_size == chunk_size * chunk_count) by (nonlinear_arith);
            assert(data@ =~= pattern_data((chunk_size * chunk_count) as nat));
        }
        let fname = copy_bytes(name);
        let ghost dview = data@;
        let ghost s1 = self.files@;
        self.files.push(MemFile { name: fname, data });
        proof {
            let s2 = self.files@;
            let last = s2.len() - 1;
            assert(s2[last].name@ == name@);
            assert(s2[last].data@ == dview);
            assert forall|a: int, b: int|
                0 <= a < b < s2.len() implies s2[a].name@ != s2[b].name@ by {
                if b == last {
                    assert(s2[a] == s1[a]);
                    if s1[a].name@ == name@ {
                        assert(d1.has_file(name@));
                    }
                } else {
                    assert(s2[a] == s1[a]);
                    assert(s2[b] == s1[b]);
                    lemma_wf_distinct(d1, a, b);
                }
            }
            assert(self.has_file(name@)) by {
                assert(0 <= last < s2.len() && s2[last].name@ == name@);
            }
            lemma_file_data_at(*self, last);
            assert(self.file_data(name@) == pattern_data((chunk_size * chunk_count) as nat));
            assert forall|n: Seq<u8>|
                n != name@ implies self.has_file(n) == d1.has_file(n) by {
                if self.has_file(n) {
                    let k = choose|k: int| 0 <= k < s2.len() && s2[k].name@ == n;
                    assert(k != last);
                    assert(s2[k] == s1[k]);
                    assert(d1.has_file(n));
                }
                if d1.has_file(n) {
                    let k = choose|k: int| 0 <= k < s1.len() && s1[k].name@ == n;
                    assert(s2[k] == s1[k]);
                    assert(self.has_file(n));
                }
            }
            assert forall|n: Seq<u8>|
                n != name@ && d1.has_file(n) implies self.file_data(n) == d1.file_data(n) by {
                let k = choose|k: int| 0 <= k < s1.len() && s1[k].name@ == n;
                lemma_file_data_at(d1, k);
                assert(s2[k] == s1[k]);
                lemma_file_data_at(*self, k);
            }
        }
        chunk_size * chunk_count
    }

    /// One read pass: open the file named `name` and read `chunk_count`
    /// sequential chunks of `chunk_size` bytes, front to back. It returns the
    /// chunks — exactly the consecutive byte ranges of the file — if and only
    /// if the file exists and holds at least the pass's total byte count;
    /// every other outcome is `None`, which the orchestration treats as
    /// fatal.
    #[verifier::loop_isolation(false)]
    pub fn run_read_pass(
        &self,
        name: &Vec<u8>,
        chunk_size: usize,
        chunk_count: usize,
    ) -> (r: Option<Vec<Vec<u8>>>)
        requires
            self.wf(),
            chunk_size * chunk_count <= usize::MAX,
        ensures
            r is Some <==> (self.has_file(name@) && self.file_data(name@).len() >= chunk_size
                * chunk_count),
            r matches Some(chunks) ==> {
                &&& chunks@.len() == chunk_count
                &&& forall|c: int|
                    0 <= c < chunk_count ==> chunks@[c]@ == self.file_data(name@).subrange(
                        c * chunk_size,
                        (c + 1) * chunk_size,
                    )
            },
    {
        let idx = match self.find(name) {
            None => {
                return None;
            },
            Some(i) => i,
        };
        proof {
            lemma_file_data_at(*self, idx as int);
        }
        let total = chunk_size * chunk_count;
        if self.files[idx].data.len() < total {
            return None;
        }
        let ghost d = self.file_data(name@);
        let mut chunks: Vec<Vec<u8>> = Vec::new();
        let mut off: usize = 0;
        let mut c: usize = 0;
        while c < chunk_count
            invariant
                c <= chunk_count,
                off == c * chunk_size,
                chunks@.len() == c,
                forall|t: int|
                    0 <= t < c ==> chunks@[t]@ == d.subrange(t * chunk_size, (t + 1) * chunk_size),
            decreases chunk_count - c,
        {
            proof {
                assert(c * chunk_size + chunk_size == (c + 1) * chunk_size) by (nonlinear_arith);
                assert((c + 1) * chunk_size <= chunk_count * chunk_size) by (nonlinear_arith)
                    requires
                        0 <= c < chunk_count,
                        0 <= chunk_size,
                ;
                assert(chunk_count * chunk_size == chunk_size * chunk_count) by (nonlinear_arith);
            }
            let mut chunk: Vec<u8> = Vec::new();
            let mut j: usize = 0;
            while j < chunk_size
                invariant
                    j <= chunk_size,
                    chunk@.len() == j,
                    forall|t: int| 0 <= t < j ==> chunk@[t] == d[off + t],
                decreases chunk_size - j,
            {
                chunk.push(self.files[idx].data[off + j]);
                j = j + 1;
            }
            proof {
                assert(chunk@ =~= d.subrange(c * chunk_size, (c + 1) * chunk_size));
            }
            chunks.push(chunk);
            off = off + chunk_size;
            c = c + 1;
        }
        Some(chunks)
    }
}

/// Idempotence of the write pass: a second pass against the same name finds
/// the file its predecessor left and absorbs it — it cannot fail, since
/// [`MemDir::run_write_pass`] succeeds on every well-formed directory — and
/// it leaves the directory exactly as the first pass did: the same files,
/// with the same bytes.
pub proof fn lemma_write_pass_idempotent(
    d0: MemDir,
    d1: MemDir,
    d2: MemDir,
    name: Seq<u8>,
    total: nat,
)
    requires
        write_pass_post(d0, d1, name, total),
        write_pass_post(d1, d2, name, total),
    ensures
        forall|n: Seq<u8>| d2.has_file(n) == d1.has_file(n),
        forall|n: Seq<u8>| d1.has_file(n) ==> d2.file_data(n) == d1.file_data(n),
{
    assert forall|n: Seq<u8>| d2.has_file(n) == d1.has_file(n) by {
        if n != name {
            assert(d2.has_file(n) == d1.has_file(n));
        }
    }
    assert forall|n: Seq<u8>| d1.has_file(n) implies d2.file_data(n) == d1.file_data(n) by {
        if n != name {
            assert(d2.file_data(n) == d1.file_data(n));
        }
    }
}

/// Round-trip law: after a write pass of `chunk_count` chunks of
/// `chunk_size` pattern bytes, a read pass of the same shape is owed success
/// — the file exists and holds exactly the pass's byte count — and the
/// chunks it returns are each exactly one written chunk: `chunk_size` bytes
/// of the pattern.
pub proof fn lemma_write_read_round_trip(
    pre: MemDir,
    d: MemDir,
    name: Seq<u8>,
    chunk_size: nat,
    chunk_count: nat,
    chunks: Seq<Seq<u8>>,
)
    requires
        write_pass_post(pre, d, name, chunk_size * chunk_count),
        chunks.len() == chunk_count,
        forall|c: int|
            0 <= c < chunk_count ==> chunks[c] == d.file_data(name).subrange(
                c * chunk_size,
                (c + 1) * chunk_size,
            ),
    ensures
        d.has_file(name),
        d.file_data(name).len() == chunk_size * chunk_count,
        forall|c: int| 0 <= c < chunk_count ==> chunks[c] == pattern_data(chunk_size),
{
    assert forall|c: int| 0 <= c < chunk_count implies chunks[c] == pattern_data(chunk_size) by {
        assert(0 <= c * chunk_size) by (nonlinear_arith)
            requires
                0 <= c,
                0 <= chunk_size,
        ;
        assert(c * chunk_size + chunk_size == (c + 1) * chunk_size) by (nonlinear_arith);
        assert((c + 1) * chunk_size <= chunk_size * chunk_count) by (nonlinear_arith)
            requires
                0 <= c < chunk_count,
                0 <= chunk_size,
        ;
        assert(chunks[c] =~= pattern_data(chunk_size));
    }
}

/// In a well-formed directory, distinct slots hold distinct names.
proof fn lemma_wf_distinct(d: MemDir, a: int, b: int)
    requires
        d.wf(),
        0 <= a < d.files@.len(),
        0 <= b < d.files@.len(),
        a != b,
    ensures
        d.files@[a].name@ != d.files@[b].name@,
{
}

/// In a well-formed directory, the file in slot `i` is the one `file_data`
/// speaks of under its name.
proof fn lemma_file_data_at(d: MemDir, i: int)
    requires
        d.wf(),
        0 <= i < d.files@.len(),
    ensures
        d.has_file(d.files@[i].name@),
        d.file_data(d.files@[i].name@) == d.files@[i].data@,
{
    let n = d.files@[i].name@;
    assert(d.has_file(n)) by {
        assert(0 <= i < d.files@.len() && d.files@[i].name@ == n);
    }
    let k = choose|k: int| 0 <= k < d.files@.len() && d.files@[k].name@ == n;
    if k != i {
        lemma_wf_distinct(d, k, i);
    }
}

/// Whether two byte strings hold the same bytes.
pub fn bytes_equal(a: &Vec<u8>, b: &Vec<u8>) -> (r: bool)
    ensures
        r == (a@ == b@),
{
    if a.len() != b.len() {
        return false;
    }
    let n = a.len();
    let mut i: usize = 0;
    while i < n
        invariant
            i <= n,
            n == a@.len(),
            n == b@.len(),
            forall|j: int| 0 <= j < i ==> a@[j] == b@[j],
        decreases n - i,
    {
        if a[i] != b[i] {
            return false;
        }
        i = i + 1;
    }
    proof {
        assert(a@ =~= b@);
    }
    true
}

/// A fresh copy of a byte string.
fn copy_bytes(src: &Vec<u8>) -> (r: Vec<u8>)
    ensures
        r@ == src@,
{
    let n = src.len();
    let mut r: Vec<u8> = Vec::new();
    let mut i: usize = 0;
    while i < n
        invariant
            i <= n,
            n == src@.len(),
            r@ =~= src@.take(i as int),
        decreases n - i,
    {
        r.push(src[i]);
        proof {
            assert(r@ =~= src@.take(i + 1));
        }
        i = i + 1;
    }
    proof {
        assert(r@ =~= src@);
    }
    r
}

} // verus!
