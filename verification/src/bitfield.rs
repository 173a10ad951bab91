//! A fixed-size set of bits, packed into bytes.

use vstd::prelude::*;

verus! {

/// The value of bit `i` in a byte string, the least significant bit of each
/// byte coming first.
pub open spec fn bit_of(bytes: Seq<u8>, i: int) -> bool {
    (bytes[i / 8] >> ((i % 8) as u8)) & 1u8 == 1u8
}

/// A field of bits, all clear at creation.
#[derive(Debug)]
pub struct Bitfield {
    /// The bits, eight per byte.
    data: Vec<u8>,
    /// The number of bits.
    len: usize,
}

impl View for Bitfield {
    type V = Seq<bool>;

    closed spec fn view(&self) -> Seq<bool> {
        Seq::new(self.len as nat, |i: int| bit_of(self.data@, i))
    }
}

impl Bitfield {
    /// The bytes hold exactly the bits of the field.
    pub closed spec fn wf(&self) -> bool {
        self.data@.len() == self.len / 8 + (if self.len % 8 == 0 { 0int } else { 1int })
    }

    /// Creates a field of `len` bits, all clear.
    pub fn new(len: usize) -> (res: Self)
        ensures
            res.wf(),
            res@ == Seq::new(len as nat, |i: int| false),
    {
        let extra: usize = if len % 8 == 0 { 0 } else { 1 };
        let data: Vec<u8> = vec![0u8; len / 8 + extra];
        let res = Self { data, len };
        proof {
            assert forall|i: int| 0 <= i < len implies !#[trigger] res@[i] by {
                let k = (i % 8) as u8;
                assert((0u8 >> k) & 1u8 == 0u8) by (bit_vector)
                    requires
                        k < 8,
                ;
            }
        }
        res
    }

    /// The number of bits in the field.
    pub fn len(&self) -> (res: usize)
        ensures
            res == self@.len(),
    {
        self.len
    }

    /// Tells whether bit `index` is set.
    pub fn is_set(&self, index: usize) -> (res: bool)
        requires
            self.wf(),
            index < self@.len(),
        ensures
            res == self@[index as int],
    {
        let shift: u8 = (index % 8) as u8;
        (self.data[index / 8] >> shift) & 1 == 1
    }

    /// Sets bit `index`.
    pub fn set(&mut self, index: usize)
        requires
            old(self).wf(),
            index < old(self)@.len(),
        ensures
            final(self).wf(),
            final(self)@ == old(self)@.update(index as int, true),
    {
        let shift: u8 = (index % 8) as u8;
        let byte: u8 = self.data[index / 8];
        self.data[index / 8] = byte | (1u8 << shift);
        proof {
            assert forall|i: int| 0 <= i < self@.len() implies #[trigger] self@[i] == old(
                self,
            )@.update(index as int, true)[i] by {
                let k = (i % 8) as u8;
                if i / 8 == index as int / 8 {
                    assert(((byte | (1u8 << shift)) >> k) & 1u8 == (if k == shift {
                        1u8
                    } else {
                        (byte >> k) & 1u8
                    })) by (bit_vector)
                        requires
                            k < 8,
                            shift < 8,
                    ;
                }
            }
            assert(self@ =~= old(self)@.update(index as int, true));
        }
    }

    /// Clears bit `index`.
    pub fn clear(&mut self, index: usize)
        requires
            old(self).wf(),
            index < old(self)@.len(),
        ensures
            final(self).wf(),
            final(self)@ == old(self)@.update(index as int, false),
    {
        let shift: u8 = (index % 8) as u8;
        let byte: u8 = self.data[index / 8];
        self.data[index / 8] = byte & !(1u8 << shift);
        proof {
            assert forall|i: int| 0 <= i < self@.len() implies #[trigger] self@[i] == old(
                self,
            )@.update(index as int, false)[i] by {
                let k = (i % 8) as u8;
                if i / 8 == index as int / 8 {
                    assert(((byte & !(1u8 << shift)) >> k) & 1u8 == (if k == shift {
                        0u8
                    } else {
                        (byte >> k) & 1u8
                    })) by (bit_vector)
                        requires
                            k < 8,
                            shift < 8,
                    ;
                }
            }
            assert(self@ =~= old(self)@.update(index as int, false));
        }
    }

    /// Returns the index of the first set bit, if there is one.
    pub fn find_set(&self) -> (res: Option<usize>)
        requires
            self.wf(),
        ensures
            match res {
                Some(i) => {
                    &&& i < self@.len()
                    &&& self@[i as int]
                    &&& forall|j: int| 0 <= j < i ==> !#[trigger] self@[j]
                },
                None => forall|j: int| 0 <= j < self@.len() ==> !#[trigger] self@[j],
            },
    {
        let mut i: usize = 0;
        while i < self.len
            invariant
                self.wf(),
                i <= self.len,
                self.len == self@.len(),
                forall|j: int| 0 <= j < i ==> !#[trigger] self@[j],
            decreases self.len - i,
        {
            if self.is_set(i) {
                return Some(i);
            }
            i += 1;
        }
        None
    }

    /// Returns the bytes of the field.
    pub fn as_slice(&self) -> (res: &[u8])
        requires
            self.wf(),
        ensures
            res@.len() == self@.len() / 8 + (if self@.len() % 8 == 0 { 0nat } else { 1nat }),
            forall|i: int| 0 <= i < self@.len() ==> #[trigger] self@[i] == bit_of(res@, i),
    {
        self.data.as_slice()
    }

    /// Makes a copy of the field.
    pub fn duplicate(&self) -> (res: Self)
        requires
            self.wf(),
        ensures
            res.wf(),
            res@ == self@,
    {
        let data: Vec<u8> = self.data.clone();
        assert(data@ =~= self.data@);
        Self { data, len: self.len }
    }
}

} // verus!
