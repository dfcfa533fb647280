//! Buffers for key bytes, and the vault key itself.

use vstd::prelude::*;

verus! {

/// The number of bytes in a vault key.
pub const VAULT_KEY_LEN: usize = 64;

/// The number of bytes in a zeroed [`KeyBuffer`]: one page.
pub const KEY_BUFFER_LEN: usize = 4096;

/// `n` zero bytes.
pub open spec fn zeros(n: nat) -> Seq<u8> {
    Seq::new(n, |i: int| 0u8)
}

/// The first `n` bytes of `s`, or all of `s` where it is shorter.
pub open spec fn at_most(s: Seq<u8>, n: nat) -> Seq<u8> {
    if n <= s.len() {
        s.take(n as int)
    } else {
        s
    }
}

/// Overwrites the bytes of a vector with zeros and empties it.
///
/// Calls `zeroize::Zeroize::zeroize` of `Vec<u8>`, which zeroes the spare
/// capacity and every element and then clears the vector. The contract claims
/// that the vector is empty afterwards and that the call does not unwind; that
/// the memory behind it holds zeros is a fact about the allocation, which no
/// value shows.
#[verifier::external_body]
pub(crate) fn wipe(bytes: &mut Vec<u8>)
    ensures
        final(bytes)@ == Seq::<u8>::empty(),
    opens_invariants none
    no_unwind
{
    zeroize::Zeroize::zeroize(bytes);
}

/// A buffer for key bytes, wiped when it goes out of scope.
///
/// Its allocation is made once, large enough for [`KEY_BUFFER_LEN`] bytes, so
/// that an owner can lock the pages behind it.
pub struct KeyBuffer {
    bytes: Vec<u8>,
}

impl View for KeyBuffer {
    type V = Seq<u8>;

    closed spec fn view(&self) -> Seq<u8> {
        self.bytes@
    }
}

impl Drop for KeyBuffer {
    fn drop(&mut self)
        opens_invariants none
        no_unwind
    {
        wipe(&mut self.bytes);
    }
}

impl KeyBuffer {
    /// An empty buffer.
    pub fn new() -> (buffer: KeyBuffer)
        ensures
            buffer@ == Seq::<u8>::empty(),
    {
        KeyBuffer { bytes: Vec::with_capacity(KEY_BUFFER_LEN) }
    }

    /// Replaces whatever the buffer holds by a page of zeros.
    pub fn zero(&mut self)
        ensures
            final(self)@ == zeros(KEY_BUFFER_LEN as nat),
    {
        self.bytes.truncate(0);
        while self.bytes.len() < KEY_BUFFER_LEN
            invariant
                self.bytes@ == zeros(self.bytes@.len()),
                self.bytes@.len() <= KEY_BUFFER_LEN,
            decreases KEY_BUFFER_LEN - self.bytes@.len(),
        {
            self.bytes.push(0);
        }
    }

    /// The bytes held.
    pub fn data(&self) -> (data: &[u8])
        ensures
            data@ == self@,
    {
        self.bytes.as_slice()
    }

    /// The bytes held, for writing.
    pub fn data_mut(&mut self) -> (data: &mut [u8])
        ensures
            data@ == old(self)@,
            final(self)@ == final(data)@,
    {
        self.bytes.as_mut_slice()
    }

    /// Keeps the first `len` bytes; a shorter buffer stays as it is.
    pub fn truncate(&mut self, len: usize)
        ensures
            final(self)@ == at_most(old(self)@, len as nat),
    {
        self.bytes.truncate(len);
    }

    /// Overwrites the front of the buffer with `source`.
    pub fn copy_front(&mut self, source: &[u8])
        requires
            source@.len() <= old(self)@.len(),
        ensures
            final(self)@ == source@ + old(self)@.skip(source@.len() as int),
    {
        let ghost before = self.bytes@;
        let mut i: usize = 0;
        while i < source.len()
            invariant
                i <= source@.len() <= before.len(),
                self.bytes@ == source@.take(i as int) + before.skip(i as int),
            decreases source@.len() - i,
        {
            self.bytes[i] = source[i];
            i += 1;
        }
        assert(source@.take(i as int) == source@);
    }
}

/// The keys of an unlocked vault.
pub struct Keys {
    keys: KeyBuffer,
}

impl View for Keys {
    type V = Seq<u8>;

    closed spec fn view(&self) -> Seq<u8> {
        self.keys@
    }
}

impl Keys {
    /// Takes a buffer that holds the key bytes.
    pub fn new(keys: KeyBuffer) -> (result: Keys)
        ensures
            result@ == keys@,
    {
        Keys { keys }
    }

    /// The key bytes.
    pub fn as_bytes(&self) -> (bytes: &[u8])
        ensures
            bytes@ == self@,
    {
        self.keys.data()
    }
}

/// A buffer cut to `n` bytes is the longest prefix of it that has no more.
pub proof fn cut_keeps_the_front(s: Seq<u8>, n: nat)
    ensures
        at_most(s, n).is_prefix_of(s),
        at_most(s, n).len() <= n,
        at_most(s, n).len() < n ==> at_most(s, n) == s,
{
}

/// A zeroed buffer is a page of zeros and has room for a vault key.
pub proof fn zeroed_buffer_holds_a_vault_key()
    ensures
        zeros(KEY_BUFFER_LEN as nat).len() == 4096,
        forall|i: int|
            0 <= i < KEY_BUFFER_LEN ==> (#[trigger] zeros(KEY_BUFFER_LEN as nat)[i]) == 0,
        VAULT_KEY_LEN == 64,
{
}

} // verus!
