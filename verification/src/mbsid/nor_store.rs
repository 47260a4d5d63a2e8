//! NOR flash as the stores see it: erasing sets bytes to `0xFF`, programming
//! can only clear bits, reading leaves the contents alone.
use vstd::prelude::*;

verus! {

/// `m` with the bytes of `from..to` erased to `0xFF`.
pub open spec fn nor_erase(m: Seq<u8>, from: int, to: int) -> Seq<u8> {
    Seq::new(m.len(), |i: int| if from <= i < to { 0xFFu8 } else { m[i] })
}

/// `m` after programming `b` at `off`: each byte keeps only the bits set in
/// both the old contents and the programmed byte.
pub open spec fn nor_program(m: Seq<u8>, off: int, b: Seq<u8>) -> Seq<u8> {
    Seq::new(m.len(), |i: int| if off <= i < off + b.len() { m[i] & b[i - off] } else { m[i] })
}

/// The error a call returned, or `None` when it succeeded.
pub open spec fn err_of<E>(r: Result<(), E>) -> Option<E> {
    match r {
        Ok(_) => None,
        Err(e) => Some(e),
    }
}

/// A flash operation that changes the contents: an erase of `from..to`, or
/// programming bytes at an offset.
pub enum NorOp {
    Erase(u32, u32),
    Write(u32, Seq<u8>),
}

/// Byte-addressed NOR flash, implemented by [`RamNor`] here and by the
/// board's flash driver. A call may fail unless the flash is `reliable` and
/// the access lies inside it; what a successful call did is stated over
/// `contents`, and every erase and program call is recorded in `ops`.
///
/// The spec functions have default bodies so that a driver written outside
/// Verus (which cannot define spec functions) can implement the trait. Under
/// those defaults the contracts below are not true of such a driver: they
/// describe only implementations that define the spec functions, such as
/// [`RamNor`], and nothing proved here carries over to a driver that keeps
/// the defaults.
pub trait NorStore {
    type Error;

    /// The whole flash, byte by byte. The default (empty) is no model of
    /// any real flash; see the trait's documentation.
    closed spec fn contents(&self) -> Seq<u8> {
        Seq::empty()
    }

    /// Whether every access inside the flash is sure to succeed, now and
    /// after any later call. The default promises nothing.
    closed spec fn reliable(&self) -> bool {
        false
    }

    /// Every erase and program call made so far, in order, each with the
    /// error it returned (`None` when it succeeded). The default is no model of any real flash; see
    /// the trait's documentation.
    closed spec fn ops(&self) -> Seq<(NorOp, Option<Self::Error>)> {
        Seq::empty()
    }

    /// Copies `bytes.len()` bytes starting at `offset` into `bytes`.
    fn read(&mut self, offset: u32, bytes: &mut [u8]) -> (r: Result<(), Self::Error>)
        ensures
            final(self).contents() == old(self).contents(),
            final(self).ops() == old(self).ops(),
            old(self).reliable() ==> final(self).reliable(),
            old(self).reliable() && offset + old(bytes)@.len() <= old(self).contents().len() ==> r is Ok,
            final(bytes)@.len() == old(bytes)@.len(),
            r is Ok ==> offset + old(bytes)@.len() <= old(self).contents().len() && final(bytes)@
                == old(self).contents().subrange(offset as int, offset + old(bytes)@.len()),
    ;

    /// Erases the bytes of `from..to`.
    fn erase(&mut self, from: u32, to: u32) -> (r: Result<(), Self::Error>)
        ensures
            final(self).contents().len() == old(self).contents().len(),
            final(self).ops() == old(self).ops().push((NorOp::Erase(from, to), err_of(r))),
            old(self).reliable() ==> final(self).reliable(),
            old(self).reliable() && from <= to <= old(self).contents().len() ==> r is Ok,
            r is Ok ==> from <= to <= old(self).contents().len() && final(self).contents() == nor_erase(
                old(self).contents(),
                from as int,
                to as int,
            ),
    ;

    /// Programs `bytes` at `offset`.
    fn write(&mut self, offset: u32, bytes: &[u8]) -> (r: Result<(), Self::Error>)
        ensures
            final(self).contents().len() == old(self).contents().len(),
            final(self).ops() == old(self).ops().push((NorOp::Write(offset, bytes@), err_of(r))),
            old(self).reliable() ==> final(self).reliable(),
            old(self).reliable() && offset + bytes@.len() <= old(self).contents().len() ==> r is Ok,
            r is Ok ==> offset + bytes@.len() <= old(self).contents().len() && final(self).contents()
                == nor_program(old(self).contents(), offset as int, bytes@),
    ;
}

/// The only way [`RamNor`] fails: an access past its end.
#[derive(Clone, Copy, PartialEq, Eq, Debug, Structural)]
pub enum RamNorError {
    OutOfRange,
}

/// NOR flash held in memory, with the same erase and program semantics as
/// the real part; it also counts erases.
pub struct RamNor {
    mem: Vec<u8>,
    erases: usize,
    log: Ghost<Seq<(NorOp, Option<RamNorError>)>>,
}

impl RamNor {
    /// The bytes of the flash.
    pub closed spec fn mem(&self) -> Seq<u8> {
        self.mem@
    }

    /// How many erases succeeded so far.
    pub closed spec fn erases(&self) -> nat {
        self.erases as nat
    }

    /// A fully erased flash of `size` bytes.
    pub fn new(size: usize) -> (f: Self)
        ensures
            f.mem() == Seq::new(size as nat, |i: int| 0xFFu8),
            f.erases() == 0,
            f.ops() == Seq::<(NorOp, Option<RamNorError>)>::empty(),
    {
        let mut mem: Vec<u8> = Vec::new();
        let mut i: usize = 0;
        while i < size
            invariant
                i <= size,
                mem@ == Seq::new(i as nat, |k: int| 0xFFu8),
            decreases size - i,
        {
            mem.push(0xFF);
            i = i + 1;
            assert(mem@ =~= Seq::new(i as nat, |k: int| 0xFFu8));
        }
        RamNor { mem, erases: 0, log: Ghost(Seq::empty()) }
    }

    /// The number of successful erases, saturating at `usize::MAX`.
    pub fn erase_count(&self) -> (n: usize)
        ensures
            n == self.erases(),
    {
        self.erases
    }

    /// The flash size in bytes.
    pub fn size(&self) -> (n: usize)
        ensures
            n == self.mem().len(),
    {
        self.mem.len()
    }

    /// The byte at `i`.
    pub fn byte_at(&self, i: usize) -> (b: u8)
        requires
            i < self.mem().len(),
        ensures
            b == self.mem()[i as int],
    {
        self.mem[i]
    }

    /// Overwrites the byte at `i`, bypassing NOR semantics (a fault injector).
    pub fn set_byte(&mut self, i: usize, b: u8)
        requires
            i < old(self).mem().len(),
        ensures
            final(self).mem() == old(self).mem().update(i as int, b),
            final(self).erases() == old(self).erases(),
            final(self).ops() == old(self).ops(),
    {
        self.mem.set(i, b);
    }
}

impl NorStore for RamNor {
    type Error = RamNorError;

    closed spec fn contents(&self) -> Seq<u8> {
        self.mem@
    }

    closed spec fn ops(&self) -> Seq<(NorOp, Option<RamNorError>)> {
        self.log@
    }

    /// Only an access past the end fails.
    closed spec fn reliable(&self) -> bool {
        true
    }

    fn read(&mut self, offset: u32, bytes: &mut [u8]) -> (r: Result<(), RamNorError>) {
        let n = self.mem.len();
        let o = offset as usize;
        if o > n || bytes.len() > n - o {
            return Err(RamNorError::OutOfRange);
        }
        let mut i: usize = 0;
        while i < bytes.len()
            invariant
                self.mem@.len() == n,
                o + bytes@.len() <= n,
                bytes@.len() == old(bytes)@.len(),
                i <= bytes@.len(),
                forall|k: int| 0 <= k < i ==> bytes@[k] == self.mem@[o + k],
            decreases bytes@.len() - i,
        {
            bytes[i] = self.mem[o + i];
            i = i + 1;
        }
        assert(bytes@ =~= self.mem@.subrange(o as int, o + bytes@.len()));
        Ok(())
    }

    fn erase(&mut self, from: u32, to: u32) -> (r: Result<(), RamNorError>) {
        let n = self.mem.len();
        if to as usize > n || from > to {
            self.log = Ghost(self.log@.push((NorOp::Erase(from, to), Some(RamNorError::OutOfRange))));
            return Err(RamNorError::OutOfRange);
        }
        let ghost m0 = self.mem@;
        let ghost l0 = self.log@;
        let mut i: usize = from as usize;
        while i < to as usize
            invariant
                self.mem@.len() == n,
                self.log@ == l0,
                m0.len() == n,
                from <= i <= to <= n,
                forall|k: int| 0 <= k < n ==> self.mem@[k] == (if from <= k < i { 0xFFu8 } else { m0[k] }),
            decreases to - i,
        {
            self.mem.set(i, 0xFF);
            i = i + 1;
        }
        assert(self.mem@ =~= nor_erase(m0, from as int, to as int));
        if self.erases < usize::MAX {
            self.erases = self.erases + 1;
        }
        self.log = Ghost(self.log@.push((NorOp::Erase(from, to), None)));
        Ok(())
    }

    fn write(&mut self, offset: u32, bytes: &[u8]) -> (r: Result<(), RamNorError>) {
        let n = self.mem.len();
        let o = offset as usize;
        if o > n || bytes.len() > n - o {
            self.log = Ghost(self.log@.push((NorOp::Write(offset, bytes@), Some(RamNorError::OutOfRange))));
            return Err(RamNorError::OutOfRange);
        }
        let ghost m0 = self.mem@;
        let ghost l0 = self.log@;
        let mut i: usize = 0;
        while i < bytes.len()
            invariant
                self.mem@.len() == n,
                self.log@ == l0,
                m0.len() == n,
                o + bytes@.len() <= n,
                i <= bytes@.len(),
                forall|k: int|
                    0 <= k < n ==> self.mem@[k] == (if o <= k < o + i { m0[k] & bytes@[k - o] } else { m0[k] }),
            decreases bytes@.len() - i,
        {
            let b = self.mem[o + i] & bytes[i];
            self.mem.set(o + i, b);
            i = i + 1;
        }
        assert(self.mem@ =~= nor_program(m0, o as int, bytes@));
        self.log = Ghost(self.log@.push((NorOp::Write(offset, bytes@), None)));
        Ok(())
    }
}

} // verus!
