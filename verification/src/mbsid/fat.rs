//! 512-byte block devices, and the byte-stream adapter that presents the
//! first FAT volume of one as a seekable stream through a one-sector
//! read-modify-write cache with write-back on flush or eviction.
use vstd::prelude::*;
use crate::mbsid::partition::{first_partition_lba, disk_volume_start, volume_readable};

verus! {

/// Sector size of every block device.
pub const BLOCK_LEN: usize = 512;

/// A 512-byte block device, implemented by [`MemDisk`] here and by the
/// USB mass-storage driver. A call may fail unless the device `answers` for
/// its sector; what a successful call did is stated over `sector`.
///
/// The spec functions have default bodies so that a driver written outside
/// Verus (which cannot define spec functions) can implement the trait. Under
/// those defaults the contracts below are not true of such a driver: they
/// describe only implementations that define the spec functions, such as
/// [`MemDisk`], and nothing proved here carries over to a driver that keeps
/// the defaults.
pub trait BlockIo {
    /// The contents of the sector at `lba`. The default (empty) is no model
    /// of any real drive; see the trait's documentation.
    closed spec fn sector(&self, lba: u32) -> Seq<u8> {
        Seq::empty()
    }

    /// Whether reads and writes of the sector at `lba` are sure to succeed,
    /// now and after any later access. The default promises nothing.
    closed spec fn answers(&self, lba: u32) -> bool {
        false
    }

    /// Copies the sector at `lba` into `buf`.
    fn read_block(&mut self, lba: u32, buf: &mut [u8; 512]) -> (r: Result<(), ()>)
        ensures
            forall|l: u32| #[trigger] final(self).sector(l) == old(self).sector(l),
            forall|l: u32| old(self).answers(l) ==> #[trigger] final(self).answers(l),
            old(self).answers(lba) ==> r is Ok,
            r is Ok ==> final(buf)@ == old(self).sector(lba),
    ;

    /// Replaces the sector at `lba` by `buf`.
    fn write_block(&mut self, lba: u32, buf: &[u8; 512]) -> (r: Result<(), ()>)
        ensures
            forall|l: u32| old(self).answers(l) ==> #[trigger] final(self).answers(l),
            old(self).answers(lba) ==> r is Ok,
            r is Ok ==> final(self).sector(lba) == buf@,
            r is Ok ==> forall|l: u32| l != lba ==> #[trigger] final(self).sector(l) == old(self).sector(l),
            r is Err ==> forall|l: u32| #[trigger] final(self).sector(l) == old(self).sector(l),
    ;
}

/// Opaque I/O error of the storage adapters.
#[derive(Clone, Copy, PartialEq, Eq, Debug, Structural)]
pub struct StorageError;

/// A block device held in memory. It counts successful writes and can be
/// told to fail the next read of one sector.
pub struct MemDisk {
    data: Vec<u8>,
    writes: usize,
    fail_read_lba: Option<u32>,
}

/// The bytes of sector `lba` of an image, empty past its end.
pub open spec fn image_sector(data: Seq<u8>, lba: u32) -> Seq<u8> {
    if (lba + 1) * 512 <= data.len() {
        data.subrange(lba * 512, lba * 512 + 512)
    } else {
        Seq::empty()
    }
}

impl MemDisk {
    /// The disk image.
    pub closed spec fn image(&self) -> Seq<u8> {
        self.data@
    }

    /// The number of successful writes, saturating at `usize::MAX`.
    pub closed spec fn writes(&self) -> nat {
        self.writes as nat
    }

    /// The sector whose next read fails, if any.
    pub closed spec fn failing(&self) -> Option<u32> {
        self.fail_read_lba
    }

    /// A disk whose image is `data`.
    pub fn new(data: Vec<u8>) -> (d: Self)
        ensures
            d.image() == data@,
            d.writes() == 0,
            d.failing() is None,
    {
        MemDisk { data, writes: 0, fail_read_lba: None }
    }

    /// Makes the next read of `lba` fail, once.
    pub fn fail_next_read(&mut self, lba: u32)
        ensures
            final(self).image() == old(self).image(),
            final(self).writes() == old(self).writes(),
            final(self).failing() == Some(lba),
    {
        self.fail_read_lba = Some(lba);
    }

    /// The number of successful writes.
    pub fn write_count(&self) -> (n: usize)
        ensures
            n == self.writes(),
    {
        self.writes
    }

    /// The disk image.
    pub fn bytes(&self) -> (b: &[u8])
        ensures
            b@ == self.image(),
    {
        self.data.as_slice()
    }
}

impl BlockIo for MemDisk {
    closed spec fn sector(&self, lba: u32) -> Seq<u8> {
        image_sector(self.data@, lba)
    }

    /// A sector inside the image that is not set to fail.
    closed spec fn answers(&self, lba: u32) -> bool {
        (lba + 1) * 512 <= self.data@.len() && self.fail_read_lba != Some(lba)
    }

    fn read_block(&mut self, lba: u32, buf: &mut [u8; 512]) -> (r: Result<(), ()>) {
        if self.fail_read_lba == Some(lba) {
            self.fail_read_lba = None;
            return Err(());
        }
        let n = self.data.len();
        let o = lba as usize;
        if o > n / 512 || (o == n / 512) {
            return Err(());
        }
        let o = o * 512;
        let mut i: usize = 0;
        while i < 512
            invariant
                self.data@.len() == n,
                o + 512 <= n,
                o == lba * 512,
                i <= 512,
                buf@.len() == 512,
                forall|k: int| 0 <= k < i ==> buf@[k] == self.data@[o + k],
            decreases 512 - i,
        {
            buf[i] = self.data[o + i];
            i = i + 1;
        }
        assert(buf@ =~= image_sector(self.data@, lba));
        Ok(())
    }

    fn write_block(&mut self, lba: u32, buf: &[u8; 512]) -> (r: Result<(), ()>) {
        let n = self.data.len();
        let o = lba as usize;
        if o > n / 512 || (o == n / 512) {
            return Err(());
        }
        let o = o * 512;
        let ghost d0 = self.data@;
        let ghost f0 = self.fail_read_lba;
        let mut i: usize = 0;
        while i < 512
            invariant
                self.data@.len() == n,
                self.fail_read_lba == f0,
                d0.len() == n,
                o + 512 <= n,
                o == lba * 512,
                i <= 512,
                buf@.len() == 512,
                forall|k: int| 0 <= k < n ==> self.data@[k] == (if o <= k < o + i { buf@[k - o] } else { d0[k] }),
            decreases 512 - i,
        {
            self.data.set(o + i, buf[i]);
            i = i + 1;
        }
        assert(image_sector(self.data@, lba) =~= buf@);
        assert forall|l: u32| l != lba implies #[trigger] image_sector(self.data@, l) == image_sector(d0, l) by {
            if (l + 1) * 512 <= n {
                assert(l < lba || l > lba);
                assert(image_sector(self.data@, l) =~= image_sector(d0, l));
            }
        }
        if self.writes < usize::MAX {
            self.writes = self.writes + 1;
        }
        Ok(())
    }
}

/// Where a seek measures from.
#[derive(Clone, Copy, PartialEq, Eq, Debug, Structural)]
pub enum SeekFrom {
    Start(u64),
    End(i64),
    Current(i64),
}

/// `sec`, the sector `rel` sectors into the stream, with every byte whose
/// stream offset lies in `start..start + data.len()` taken from `data`.
pub open spec fn patched(sec: Seq<u8>, rel: int, start: int, data: Seq<u8>) -> Seq<u8> {
    Seq::new(
        sec.len(),
        |i: int|
            if i < 512 && start <= rel * 512 + i < start + data.len() {
                data[rel * 512 + i - start]
            } else {
                sec[i]
            },
    )
}

/// How many bytes one read from stream offset `pos` moves: up to the end of
/// the sector, at most `len`.
pub open spec fn chunk_len(pos: int, len: int) -> int {
    if 512 - pos % 512 < len {
        512 - pos % 512
    } else {
        len
    }
}

/// The device sector holding byte `p` of a stream whose volume starts at
/// sector `base`.
pub open spec fn stream_sector(base: u32, p: int) -> u32 {
    (base + p / 512) as u32
}

/// A byte stream over the first FAT volume of a block device, starting at
/// the volume's first sector, through a one-sector cache.
pub struct MscStorage<B: BlockIo> {
    io: B,
    pos: u64,
    base_lba: u32,
    cache_lba: Option<u32>,
    cache: [u8; 512],
    dirty: bool,
}

impl<B: BlockIo> MscStorage<B> {
    /// The block device underneath.
    pub closed spec fn dev(&self) -> B {
        self.io
    }

    /// The stream position in bytes from the volume's start.
    pub closed spec fn position(&self) -> u64 {
        self.pos
    }

    /// The volume's first sector.
    pub closed spec fn base(&self) -> u32 {
        self.base_lba
    }

    /// Whether the cache holds writes the device has not seen yet.
    pub closed spec fn is_dirty(&self) -> bool {
        self.dirty
    }

    /// The sector the cache holds, if any.
    pub closed spec fn cached(&self) -> Option<u32> {
        self.cache_lba
    }

    /// Every access a transfer over stream bytes `from..to` needs is sure
    /// to succeed: the device answers for each sector those bytes lie in,
    /// and for the dirty cached sector that must be written back first.
    pub open spec fn accessible(&self, from: int, to: int) -> bool {
        &&& forall|p: int| from <= p < to ==> #[trigger] self.dev().answers(stream_sector(self.base(), p))
        &&& (self.is_dirty() ==> self.dev().answers(self.cached()->0))
    }

    /// The sector at `lba` as the stream sees it: the cached copy when the
    /// cache holds that sector, the device's otherwise.
    pub closed spec fn logical(&self, lba: u32) -> Seq<u8> {
        if self.cache_lba == Some(lba) {
            self.cache@
        } else {
            self.io.sector(lba)
        }
    }

    /// Only a cached sector can be dirty, a clean cached sector equals the
    /// device's, and the position fits a signed 64-bit offset.
    pub closed spec fn wf(&self) -> bool {
        &&& (self.dirty ==> self.cache_lba is Some)
        &&& (self.cache_lba is Some && !self.dirty ==> self.cache@ == self.io.sector(self.cache_lba->0))
        &&& self.pos <= i64::MAX
    }

    /// A stream at the start of the first FAT volume of `io`.
    pub fn new(io: B) -> (s: Self)
        ensures
            s.wf(),
            s.position() == 0,
            !s.is_dirty(),
            s.base() == 0 || s.base() == disk_volume_start(io),
            volume_readable(io) ==> s.base() == disk_volume_start(io),
            forall|l: u32| #[trigger] s.logical(l) == io.sector(l),
            forall|l: u32| #[trigger] s.dev().sector(l) == io.sector(l),
            forall|l: u32| io.answers(l) ==> #[trigger] s.dev().answers(l),
    {
        let mut io = io;
        let base_lba = first_partition_lba(&mut io);
        MscStorage { io, pos: 0, base_lba, cache_lba: None, cache: [0u8; 512], dirty: false }
    }

    /// The volume's first sector.
    pub fn base_lba(&self) -> (b: u32)
        ensures
            b == self.base(),
    {
        self.base_lba
    }

    /// The stream position in bytes from the volume's start.
    pub fn stream_pos(&self) -> (p: u64)
        ensures
            p == self.position(),
    {
        self.pos
    }

    /// Takes the block device back out; writes still in the cache are lost
    /// unless flushed first.
    pub fn into_inner(self) -> (io: B)
        ensures
            io == self.dev(),
    {
        self.io
    }

    /// Writes the cached sector back when it is dirty.
    fn flush_cache(&mut self) -> (r: Result<(), StorageError>)
        requires
            old(self).wf(),
        ensures
            final(self).wf(),
            final(self).position() == old(self).position(),
            final(self).base() == old(self).base(),
            final(self).cache_lba == old(self).cache_lba,
            forall|l: u32| #[trigger] final(self).logical(l) == old(self).logical(l),
            forall|l: u32| old(self).dev().answers(l) ==> #[trigger] final(self).dev().answers(l),
            (old(self).dirty ==> old(self).io.answers(old(self).cache_lba->0)) ==> r is Ok,
            r is Ok ==> !final(self).is_dirty(),
            r is Ok ==> forall|l: u32| #[trigger] final(self).dev().sector(l) == old(self).logical(l),
    {
        if self.dirty {
            let lba = match self.cache_lba {
                Some(l) => l,
                None => {
                    return Err(StorageError);
                },
            };
            if self.io.write_block(lba, &self.cache).is_err() {
                return Err(StorageError);
            }
            self.dirty = false;
        }
        Ok(())
    }

    /// Makes the cache hold sector `lba`, writing back a dirty sector first.
    fn ensure_block(&mut self, lba: u32) -> (r: Result<(), StorageError>)
        requires
            old(self).wf(),
        ensures
            final(self).wf(),
            final(self).position() == old(self).position(),
            final(self).base() == old(self).base(),
            forall|l: u32| #[trigger] final(self).logical(l) == old(self).logical(l),
            forall|l: u32| old(self).dev().answers(l) ==> #[trigger] final(self).dev().answers(l),
            old(self).cache_lba == Some(lba) || (old(self).io.answers(lba) && (old(self).dirty
                ==> old(self).io.answers(old(self).cache_lba->0))) ==> r is Ok,
            r is Ok ==> final(self).cache_lba == Some(lba),
            r is Ok && old(self).cache_lba == Some(lba) ==> final(self).dirty == old(self).dirty,
            r is Ok && old(self).cache_lba != Some(lba) ==> !final(self).dirty,
    {
        if self.cache_lba != Some(lba) {
            let ghost s0 = *self;
            match self.flush_cache() {
                Ok(()) => {},
                Err(e) => {
                    return Err(e);
                },
            }
            let ghost s1 = *self;
            assert(forall|l: u32| #[trigger] s1.dev().sector(l) == s0.logical(l));
            proof {
                if s0.io.answers(lba) {
                    assert(s1.dev().answers(lba));
                }
            }
            let mut buf = [0u8; 512];
            let got = self.io.read_block(lba, &mut buf);
            proof {
                assert forall|l: u32| s0.io.answers(l) implies #[trigger] self.io.answers(l) by {
                    assert(s1.dev().answers(l));
                }
            }
            if got.is_err() {
                proof {
                    assert forall|l: u32| #[trigger] self.logical(l) == s0.logical(l) by {
                        assert(self.io.sector(l) == s1.io.sector(l));
                        assert(s1.logical(l) == s0.logical(l));
                    }
                }
                return Err(StorageError);
            }
            self.cache = buf;
            self.cache_lba = Some(lba);
            proof {
                assert forall|l: u32| #[trigger] self.logical(l) == s0.logical(l) by {
                    assert(self.io.sector(l) == s1.io.sector(l));
                    assert(s1.dev().sector(l) == s0.logical(l));
                }
            }
        }
        Ok(())
    }

    /// Reads from the current position up to the end of its sector, at most
    /// `buf.len()` bytes, and moves past them.
    pub fn read(&mut self, buf: &mut [u8]) -> (r: Result<usize, StorageError>)
        requires
            old(self).wf(),
            old(self).base() + old(self).position() / 512 <= u32::MAX,
        ensures
            final(self).wf(),
            final(self).base() == old(self).base(),
            forall|l: u32| #[trigger] final(self).logical(l) == old(self).logical(l),
            final(buf)@.len() == old(buf)@.len(),
            old(buf)@.len() == 0 ==> (r matches Ok(n) && n == 0),
            r matches Ok(n) ==> {
                &&& n == chunk_len(old(self).position() as int, old(buf)@.len() as int)
                &&& final(self).position() == old(self).position() + n
                &&& (n > 0 ==> final(buf)@.take(n as int) == old(self).logical(
                    (old(self).base() + old(self).position() / 512) as u32,
                ).subrange((old(self).position() % 512) as int, old(self).position() % 512 + n))
                &&& final(buf)@.skip(n as int) == old(buf)@.skip(n as int)
            },
            r is Err ==> old(buf)@.len() > 0 && final(self).position() == old(self).position()
                && final(buf)@ == old(buf)@,
            forall|l: u32| old(self).dev().answers(l) ==> #[trigger] final(self).dev().answers(l),
            old(self).accessible(old(self).position() as int, old(self).position() + 1) ==> r is Ok,
    {
        if buf.len() == 0 {
            assert(buf@.skip(0) =~= old(buf)@.skip(0));
            return Ok(0);
        }
        let lba = self.base_lba + (self.pos / 512) as u32;
        let off = (self.pos % 512) as usize;
        proof {
            assert(lba == stream_sector(self.base_lba, self.pos as int));
            if self.accessible(self.pos as int, self.pos + 1) {
                assert(self.dev().answers(stream_sector(self.base(), self.pos as int)));
            }
        }
        match self.ensure_block(lba) {
            Ok(()) => {},
            Err(e) => {
                return Err(e);
            },
        }
        assert(self.logical(lba) == old(self).logical(lba));
        let ghost s_mid = *self;
        assert(forall|l: u32| old(self).dev().answers(l) ==> #[trigger] s_mid.dev().answers(l));
        assert(self.cache@ == old(self).logical(lba));
        let n = if 512 - off < buf.len() {
            512 - off
        } else {
            buf.len()
        };
        let ghost b0 = buf@;
        let mut i: usize = 0;
        while i < n
            invariant
                i <= n,
                off + n <= 512,
                n <= b0.len(),
                buf@.len() == b0.len(),
                forall|k: int| 0 <= k < i ==> buf@[k] == self.cache@[off + k],
                forall|k: int| n <= k < b0.len() ==> buf@[k] == b0[k],
            decreases n - i,
        {
            buf[i] = self.cache[off + i];
            i = i + 1;
        }
        assert(buf@.take(n as int) =~= self.cache@.subrange(off as int, off + n));
        assert(buf@.skip(n as int) =~= b0.skip(n as int));
        let ghost s1 = *self;
        self.pos = self.pos + n as u64;
        assert forall|l: u32| #[trigger] self.logical(l) == old(self).logical(l) by {
            assert(self.logical(l) == s1.logical(l));
        }
        assert forall|l: u32| old(self).dev().answers(l) implies #[trigger] self.dev().answers(l) by {
            assert(s_mid.dev().answers(l));
            assert(self.io == s_mid.io);
        }
        Ok(n)
    }

    /// Writes `buf` at the current position, sector by sector through the
    /// cache, and moves past what was written. When a later sector cannot be
    /// read, the bytes already written stay written and their count is
    /// returned; `Err` means nothing was written.
    pub fn write(&mut self, buf: &[u8]) -> (r: Result<usize, StorageError>)
        requires
            old(self).wf(),
            old(self).base() + (old(self).position() + buf@.len()) / 512 <= u32::MAX,
        ensures
            final(self).wf(),
            final(self).base() == old(self).base(),
            r matches Ok(n) ==> {
                &&& n <= buf@.len()
                &&& (buf@.len() > 0 ==> n > 0)
                &&& (n < buf@.len() ==> (old(self).position() + n) % 512 == 0)
                &&& final(self).position() == old(self).position() + n
                &&& forall|l: u32| #[trigger] final(self).logical(l) == patched(
                    old(self).logical(l),
                    l - old(self).base(),
                    old(self).position() as int,
                    buf@.take(n as int),
                )
            },
            r is Err ==> buf@.len() > 0 && final(self).position() == old(self).position()
                && forall|l: u32| #[trigger] final(self).logical(l) == old(self).logical(l),
            forall|l: u32| old(self).dev().answers(l) ==> #[trigger] final(self).dev().answers(l),
            old(self).accessible(old(self).position() as int, old(self).position() + buf@.len()) ==> (r matches Ok(
                n,
            ) && n == buf@.len()),
    {
        let ghost start = self.pos as int;
        let ghost base = self.base_lba as int;
        let ghost acc = old(self).accessible(start, start + buf@.len());
        let mut written: usize = 0;
        proof {
            assert forall|l: u32| #[trigger] self.logical(l) == patched(old(self).logical(l), l - base, start, buf@.take(0)) by {
                assert(self.logical(l) =~= patched(old(self).logical(l), l - base, start, buf@.take(0)));
            }
        }
        while written < buf.len()
            invariant
                self.wf(),
                self.base_lba == base,
                base == old(self).base(),
                start == old(self).position(),
                base + (start + buf@.len()) / 512 <= u32::MAX,
                written <= buf@.len(),
                self.pos == start + written,
                written > 0 && written < buf@.len() ==> (start + written) % 512 == 0,
                forall|l: u32| #[trigger] self.logical(l) == patched(old(self).logical(l), l - base, start, buf@.take(written as int)),
                forall|l: u32| old(self).dev().answers(l) ==> #[trigger] self.dev().answers(l),
                acc == old(self).accessible(start, start + buf@.len()),
                acc ==> (self.dirty ==> self.io.answers(self.cache_lba->0)),
            decreases buf@.len() - written,
        {
            let ghost s_head = *self;
            proof {
                lemma_pos_split(self.pos as int);
                assert(self.pos / 512 <= (start + buf@.len()) / 512) by {
                    vstd::arithmetic::div_mod::lemma_div_is_ordered(self.pos as int, start + buf@.len(), 512);
                }
            }
            assert((self.pos / 512) as u32 == self.pos / 512);
            let lba = self.base_lba + (self.pos / 512) as u32;
            let off = (self.pos % 512) as usize;
            let ghost before = self.logical(lba);
            assert(before == patched(old(self).logical(lba), lba - base, start, buf@.take(written as int)));
            proof {
                assert(lba == stream_sector(base as u32, self.pos as int));
                if acc {
                    assert(old(self).dev().answers(stream_sector(old(self).base(), self.pos as int)));
                    assert(self.dev().answers(lba));
                }
            }
            let ghost s_before = *self;
            match self.ensure_block(lba) {
                Err(e) => {
                    if written > 0 {
                        return Ok(written);
                    }
                    proof {
                        assert forall|l: u32| #[trigger] self.logical(l) == old(self).logical(l) by {
                            assert(patched(old(self).logical(l), l - base, start, buf@.take(0)) =~= old(self).logical(l));
                        }
                    }
                    return Err(e);
                },
                Ok(()) => {},
            }
            let n = if 512 - off < buf.len() - written {
                512 - off
            } else {
                buf.len() - written
            };
            assert(self.logical(lba) == before);
            assert(forall|l: u32| #[trigger] self.logical(l) == s_head.logical(l));
            let ghost c0 = self.cache@;
            assert(c0 == before);
            let ghost s_pre = *self;
            let mut i: usize = 0;
            while i < n
                invariant
                    i <= n,
                    off + n <= 512,
                    written + n <= buf@.len(),
                    buf@.len() == buf.len(),
                    self.cache@.len() == 512,
                    c0.len() == 512,
                    self.io == s_pre.io,
                    self.pos == s_pre.pos,
                    self.base_lba == s_pre.base_lba,
                    self.cache_lba == s_pre.cache_lba,
                    self.dirty == s_pre.dirty,
                    forall|k: int| 0 <= k < 512 && !(off <= k < off + i) ==> self.cache@[k] == c0[k],
                    forall|k: int| off <= k < off + i ==> self.cache@[k] == buf@[written + k - off],
                decreases n - i,
            {
                self.cache[off + i] = buf[written + i];
                i = i + 1;
            }
            let ghost rel = lba - base;
            let ghost s_copy = *self;
            self.dirty = true;
            self.pos = self.pos + n as u64;
            let ghost written0 = written as int;
            written = written + n;
            proof {
                assert(rel == s_pre.pos / 512);
                let t_old = buf@.take(written0);
                let t_new = buf@.take(written as int);
                assert forall|l: u32| #[trigger] self.logical(l) == patched(old(self).logical(l), l - base, start, t_new) by {
                    let sec = old(self).logical(l);
                    assert(s_head.logical(l) == patched(sec, l - base, start, t_old));
                    assert(s_pre.logical(l) == s_head.logical(l));
                    if l == lba {
                        assert(c0 == patched(sec, l - base, start, t_old));
                        assert(sec.len() == 512);
                        assert(s_pre.pos == rel * 512 + off);
                        let pn = patched(sec, l - base, start, t_new);
                        let po = patched(sec, l - base, start, t_old);
                        assert forall|i: int| 0 <= i < 512 implies #[trigger] s_copy.cache@[i] == pn[i] by {
                            if off <= i < off + n {
                                assert(rel * 512 + i - start == written0 + i - off);
                            } else {
                                assert(s_copy.cache@[i] == po[i]);
                            }
                        }
                        assert(s_copy.cache@ =~= pn);
                    } else {
                        assert(self.logical(l) == s_pre.logical(l));
                        let pa = patched(sec, l - base, start, t_old);
                        let pb = patched(sec, l - base, start, t_new);
                        assert forall|i: int| 0 <= i < sec.len() implies #[trigger] pa[i] == pb[i] by {
                            if i < 512 {
                                if l < lba {
                                    assert((l - base) * 512 + i < rel * 512);
                                } else {
                                    assert((l - base) * 512 >= (rel + 1) * 512);
                                }
                            }
                        }
                        assert(pa =~= pb);
                    }
                }
            }
            proof {
                lemma_pos_split(start + written);
                assert forall|l: u32| old(self).dev().answers(l) implies #[trigger] self.dev().answers(l) by {
                    assert(s_before.dev().answers(l));
                    assert(s_pre.dev().answers(l));
                }
                if acc {
                    assert(s_before.dev().answers(lba));
                    assert(s_pre.dev().answers(lba));
                    assert(self.io.answers(lba));
                }
            }
        }
        Ok(written)
    }

    /// Writes a dirty cached sector back to the device.
    pub fn flush(&mut self) -> (r: Result<(), StorageError>)
        requires
            old(self).wf(),
        ensures
            final(self).wf(),
            final(self).position() == old(self).position(),
            final(self).base() == old(self).base(),
            forall|l: u32| #[trigger] final(self).logical(l) == old(self).logical(l),
            r is Ok ==> !final(self).is_dirty(),
            r is Ok ==> forall|l: u32| #[trigger] final(self).dev().sector(l) == old(self).logical(l),
            forall|l: u32| old(self).dev().answers(l) ==> #[trigger] final(self).dev().answers(l),
            final(self).cached() == old(self).cached(),
            (old(self).is_dirty() ==> old(self).dev().answers(old(self).cached()->0)) ==> r is Ok,
    {
        self.flush_cache()
    }

    /// Moves the position; seeking from the end is not supported and a
    /// negative target fails, leaving the position alone.
    pub fn seek(&mut self, to: SeekFrom) -> (r: Result<u64, StorageError>)
        requires
            old(self).wf(),
            to matches SeekFrom::Current(n) ==> old(self).position() + n <= i64::MAX,
        ensures
            final(self).wf(),
            final(self).base() == old(self).base(),
            forall|l: u32| #[trigger] final(self).logical(l) == old(self).logical(l),
            final(self).dev() == old(self).dev(),
            final(self).cached() == old(self).cached(),
            final(self).is_dirty() == old(self).is_dirty(),
            match to {
                SeekFrom::Start(n) => if n <= i64::MAX {
                    r matches Ok(p) && p == n && final(self).position() == n
                } else {
                    r is Err && final(self).position() == old(self).position()
                },
                SeekFrom::Current(n) => if old(self).position() + n >= 0 {
                    r matches Ok(p) && p == old(self).position() + n && final(self).position() == p
                } else {
                    r is Err && final(self).position() == old(self).position()
                },
                SeekFrom::End(_) => r is Err && final(self).position() == old(self).position(),
            },
    {
        let new_pos: i64 = match to {
            SeekFrom::Start(n) => {
                if n > i64::MAX as u64 {
                    return Err(StorageError);
                }
                n as i64
            },
            SeekFrom::Current(n) => self.pos as i64 + n,
            SeekFrom::End(_) => {
                return Err(StorageError);
            },
        };
        if new_pos < 0 {
            return Err(StorageError);
        }
        self.pos = new_pos as u64;
        Ok(self.pos)
    }
}

proof fn lemma_pos_split(p: int)
    requires
        p >= 0,
    ensures
        p == (p / 512) * 512 + p % 512,
        0 <= p % 512 < 512,
{
    vstd::arithmetic::div_mod::lemma_fundamental_div_mod(p, 512);
}

} // verus!
