//! Console endpoints, modelled as verified byte buffers.
//!
//! `Stdout` is a write-only byte sink: text written to it accumulates in
//! order, and the platform layer drains the buffer to the real device.
//! `Stdin` is a queue of bytes the platform has already received: the
//! platform feeds bytes in, and the readers consume them from the front.
//! Where the bare-metal original would block for more input, the reader here
//! returns an error and leaves its state untouched, so the platform layer
//! can refill and retry.

use vstd::prelude::*;
use vstd::string::StringSliceAdditionalSpecFns;

verus! {

/// A byte sink for diagnostic output. Its view is the sequence of bytes
/// written and not yet drained.
pub struct Stdout {
    buf: Vec<u8>,
}

impl View for Stdout {
    type V = Seq<u8>;

    closed spec fn view(&self) -> Seq<u8> {
        self.buf@
    }
}

/// Get a fresh, empty output sink.
pub fn stdout() -> (r: Stdout)
    ensures
        r@ == Seq::<u8>::empty(),
{
    Stdout { buf: Vec::new() }
}

impl Stdout {
    /// Write one byte.
    pub fn write_byte(&mut self, ch: u8)
        ensures
            final(self)@ == old(self)@.push(ch),
    {
        self.buf.push(ch);
    }

    /// Write a string's bytes.
    pub fn write_str(&mut self, s: &str)
        ensures
            final(self)@ == old(self)@ + s.spec_bytes(),
    {
        let bytes = s.as_bytes();
        self.buf.extend_from_slice(bytes);
    }

    /// Take everything written so far, leaving the sink empty. The platform
    /// layer hands these bytes to the real device.
    pub fn take_bytes(&mut self) -> (r: Vec<u8>)
        ensures
            r@ == old(self)@,
            final(self)@ == Seq::<u8>::empty(),
    {
        let mut out: Vec<u8> = Vec::new();
        core::mem::swap(&mut self.buf, &mut out);
        out
    }
}

/// The error a reader reports.
#[derive(Clone, Copy, Debug, PartialEq, Eq, Structural)]
pub enum Error {
    WTF,
}

/// Bytes received from the platform and not yet consumed; readers take them
/// from the front. Its view is the pending byte queue.
pub struct Stdin {
    pending: Vec<u8>,
}

impl View for Stdin {
    type V = Seq<u8>;

    closed spec fn view(&self) -> Seq<u8> {
        self.pending@
    }
}

/// Get a fresh input queue with nothing pending.
pub fn stdin() -> (r: Stdin)
    ensures
        r@ == Seq::<u8>::empty(),
{
    Stdin { pending: Vec::new() }
}

/// A line terminator: line feed or carriage return.
pub open spec fn is_line_end(b: u8) -> bool {
    b == 10 || b == 13
}

/// Some pending byte ends a line.
pub open spec fn has_line_end(s: Seq<u8>) -> bool {
    exists|k: int| 0 <= k < s.len() && is_line_end(#[trigger] s[k])
}

/// The index of the first line terminator.
pub open spec fn line_end_at(s: Seq<u8>) -> int
    decreases s.len(),
{
    if s.len() == 0 {
        0
    } else if is_line_end(s[0]) {
        0
    } else {
        1 + line_end_at(s.skip(1))
    }
}

/// Where a terminator exists, `line_end_at` finds the first one.
pub proof fn lemma_line_end_at(s: Seq<u8>)
    requires
        has_line_end(s),
    ensures
        0 <= line_end_at(s) < s.len(),
        is_line_end(s[line_end_at(s)]),
        forall|j: int| 0 <= j < line_end_at(s) ==> !is_line_end(#[trigger] s[j]),
    decreases s.len(),
{
    if s.len() > 0 && !is_line_end(s[0]) {
        let t = s.skip(1);
        assert(has_line_end(t)) by {
            let k = choose|k: int| 0 <= k < s.len() && is_line_end(#[trigger] s[k]);
            assert(t[k - 1] == s[k]);
        }
        lemma_line_end_at(t);
        assert forall|j: int| 0 <= j < line_end_at(s) implies !is_line_end(#[trigger] s[j]) by {
            if j > 0 {
                assert(t[j - 1] == s[j]);
                assert(!is_line_end(t[j - 1]));
            }
        }
    }
}

impl Stdin {
    /// The platform layer appends bytes it has received.
    pub fn feed(&mut self, bytes: &[u8])
        ensures
            final(self)@ == old(self)@ + bytes@,
    {
        self.pending.extend_from_slice(bytes);
    }

    /// Pop the next byte, if one is pending.
    pub fn try_getc(&mut self) -> (r: Option<u8>)
        ensures
            old(self)@.len() == 0 ==> r is None && final(self)@ == old(self)@,
            old(self)@.len() > 0 ==> r == Some(old(self)@[0]) && final(self)@ == old(self)@.skip(
                1,
            ),
    {
        if self.pending.len() == 0 {
            None
        } else {
            let b = self.pending.remove(0);
            proof {
                assert(self.pending@ =~= old(self)@.skip(1));
            }
            Some(b)
        }
    }

    /// Pop the next byte; the caller guarantees one is pending (where the
    /// bare-metal original would block).
    pub fn read(&mut self) -> (r: u8)
        requires
            old(self)@.len() > 0,
        ensures
            r == old(self)@[0],
            final(self)@ == old(self)@.skip(1),
    {
        let b = self.pending.remove(0);
        proof {
            assert(self.pending@ =~= old(self)@.skip(1));
        }
        b
    }

    /// Read one line: append the bytes before the first terminator to
    /// `buffer` and consume them along with the terminator (and, after a
    /// carriage return, the byte that follows it, to swallow the line feed
    /// of a two-byte line ending). Returns the count of bytes consumed by
    /// the scan itself (the line plus its terminator). Where no terminator
    /// is pending, fails without consuming anything, so the caller can feed
    /// more input and retry.
    pub fn read_line(&mut self, buffer: &mut Vec<u8>) -> (r: Result<usize, Error>)
        ensures
            !has_line_end(old(self)@) ==> r == Err::<usize, Error>(Error::WTF) && final(self)@
                == old(self)@ && final(buffer)@ == old(buffer)@,
            has_line_end(old(self)@) ==> {
                let t = line_end_at(old(self)@);
                &&& r == Ok::<usize, Error>((t + 1) as usize)
                &&& final(buffer)@ == old(buffer)@ + old(self)@.take(t)
                &&& final(self)@ == if old(self)@[t] == 13 && t + 1 < old(self)@.len() {
                    old(self)@.skip(t + 2)
                } else {
                    old(self)@.skip(t + 1)
                }
            },
    {
        let ghost orig = self.pending@;

        // Find the first terminator, without consuming anything.
        let mut t: usize = 0;
        let mut found = false;
        while t < self.pending.len()
            invariant_except_break
                0 <= t <= orig.len(),
                self@ == orig,
                !found,
                forall|j: int| 0 <= j < t ==> !is_line_end(#[trigger] orig[j]),
            ensures
                self@ == orig,
                forall|j: int| 0 <= j < t ==> !is_line_end(#[trigger] orig[j]),
                found ==> t < orig.len() && is_line_end(orig[t as int]),
                !found ==> t == orig.len(),
            decreases orig.len() - t,
        {
            let b = self.pending[t];
            if b == 10 || b == 13 {
                found = true;
                break;
            }
            t += 1;
        }
        if !found {
            return Err(Error::WTF);
        }
        proof {
            lemma_line_end_at(orig);
            assert(line_end_at(orig) == t) by {
                if line_end_at(orig) < t {
                    assert(!is_line_end(orig[line_end_at(orig)]));
                }
            }
        }

        // The line itself.
        let mut k: usize = 0;
        while k < t
            invariant
                0 <= k <= t < orig.len(),
                self@ == orig,
                buffer@ == old(buffer)@ + orig.take(k as int),
            decreases t - k,
        {
            buffer.push(self.pending[k]);
            proof {
                assert(buffer@ =~= old(buffer)@ + orig.take(k as int + 1));
            }
            k += 1;
        }

        // Consume the line, its terminator, and the byte a carriage return
        // swallows.
        let n = self.pending.len();
        assert(t < n);
        let mut consume: usize = t + 1;
        if self.pending[t] == 13 && consume < self.pending.len() {
            consume += 1;
        }
        let mut rest: Vec<u8> = Vec::new();
        let mut j: usize = consume;
        while j < self.pending.len()
            invariant
                consume <= j <= orig.len(),
                self@ == orig,
                rest@ == orig.subrange(consume as int, j as int),
            decreases orig.len() - j,
        {
            rest.push(self.pending[j]);
            proof {
                assert(rest@ =~= orig.subrange(consume as int, j as int + 1));
            }
            j += 1;
        }
        proof {
            assert(rest@ =~= orig.skip(consume as int));
        }
        self.pending = rest;
        proof {
            assert(buffer@ =~= old(buffer)@ + orig.take(t as int));
        }
        Ok(t + 1)
    }
}

} // verus!
