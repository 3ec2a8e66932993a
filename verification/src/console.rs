//! The console service: byte-oriented transmit and receive over a serial
//! device, with canonical line-ending translation on output.

use vstd::prelude::*;

verus! {

/// What one input byte becomes on the wire: a line feed is expanded to
/// carriage return plus line feed, anything else passes unchanged.
pub open spec fn byte_out(b: u8) -> Seq<u8> {
    if b == 10 {
        seq![13u8, 10u8]
    } else {
        seq![b]
    }
}

/// The canonical terminal translation of a whole byte sequence: every line
/// feed replaced by carriage return plus line feed, nothing else changed.
pub open spec fn line_translated(s: Seq<u8>) -> Seq<u8>
    decreases s.len(),
{
    if s.len() == 0 {
        Seq::empty()
    } else {
        line_translated(s.drop_last()) + byte_out(s.last())
    }
}

/// Translating one more byte extends the translation by that byte's
/// expansion.
proof fn lemma_line_translated_take_step(s: Seq<u8>, i: int)
    requires
        0 <= i < s.len(),
    ensures
        line_translated(s.take(i + 1)) == line_translated(s.take(i)) + byte_out(s[i]),
{
    let t = s.take(i + 1);
    assert(t.drop_last() =~= s.take(i));
    assert(t.last() == s[i]);
}

/// A serial device simulated on plain values: every byte ever transmitted,
/// in order, and the bytes that have arrived but not been read yet. The
/// console logic is exercised against this in place of the memory-mapped
/// device.
pub struct SimUart {
    tx: Vec<u8>,
    rx: Vec<u8>,
}

impl SimUart {
    /// Every byte transmitted so far, oldest first.
    pub closed spec fn transmitted(self) -> Seq<u8> {
        self.tx@
    }

    /// The bytes available to read, in arrival order.
    pub closed spec fn pending_input(self) -> Seq<u8> {
        self.rx@
    }

    /// A fresh device: nothing transmitted, nothing to read.
    pub fn new() -> (d: SimUart)
        ensures
            d.transmitted() == Seq::<u8>::empty(),
            d.pending_input() == Seq::<u8>::empty(),
    {
        SimUart { tx: Vec::new(), rx: Vec::new() }
    }

    /// A copy of every byte transmitted so far, oldest first, for
    /// inspection.
    pub fn transmitted_bytes(&self) -> (r: Vec<u8>)
        ensures
            r@ == self.transmitted(),
    {
        let mut r: Vec<u8> = Vec::new();
        let mut i: usize = 0;
        while i < self.tx.len()
            invariant
                i <= self.tx@.len(),
                r@ == self.tx@.take(i as int),
            decreases self.tx@.len() - i,
        {
            r.push(self.tx[i]);
            proof {
                assert(r@ =~= self.tx@.take(i + 1));
            }
            i = i + 1;
        }
        proof {
            assert(self.tx@.take(self.tx@.len() as int) =~= self.tx@);
        }
        r
    }

    /// Makes a byte available for reading, as if it had just arrived on the
    /// wire.
    pub fn feed_input(&mut self, b: u8)
        ensures
            final(self).pending_input() == old(self).pending_input().push(b),
            final(self).transmitted() == old(self).transmitted(),
    {
        self.rx.push(b);
    }

    /// Transmits one byte.
    pub fn putchar(&mut self, b: u8)
        ensures
            final(self).transmitted() == old(self).transmitted().push(b),
            final(self).pending_input() == old(self).pending_input(),
    {
        self.tx.push(b);
    }

    /// Takes the oldest unread byte, if one is available; never waits for
    /// more input.
    pub fn getchar(&mut self) -> (r: Option<u8>)
        ensures
            final(self).transmitted() == old(self).transmitted(),
            old(self).pending_input().len() == 0 ==> (
                r is None && final(self).pending_input() == old(self).pending_input()
            ),
            old(self).pending_input().len() > 0 ==> (
                r == Some(old(self).pending_input()[0])
                && final(self).pending_input() == old(self).pending_input().skip(1)
            ),
    {
        if self.rx.len() == 0 {
            None
        } else {
            let c = self.rx.remove(0);
            proof {
                assert(self.rx@ =~= old(self).rx@.skip(1));
            }
            Some(c)
        }
    }
}

/// Writes the given bytes to the console device, translating every line
/// feed to carriage return plus line feed and passing everything else
/// through unchanged. The device transmits exactly the translated sequence,
/// appended to whatever it had transmitted before.
pub fn write_bytes(dev: &mut SimUart, bytes: &[u8])
    ensures
        final(dev).transmitted() == old(dev).transmitted() + line_translated(bytes@),
        final(dev).pending_input() == old(dev).pending_input(),
{
    let ghost tx0 = dev.transmitted();
    let ghost rx0 = dev.pending_input();
    let mut i: usize = 0;
    while i < bytes.len()
        invariant
            i <= bytes@.len(),
            dev.transmitted() == tx0 + line_translated(bytes@.take(i as int)),
            dev.pending_input() == rx0,
        decreases bytes@.len() - i,
    {
        let c = bytes[i];
        if c == 10 {
            dev.putchar(13);
            dev.putchar(10);
        } else {
            dev.putchar(c);
        }
        proof {
            lemma_line_translated_take_step(bytes@, i as int);
            assert(dev.transmitted() =~= tx0 + line_translated(bytes@.take(i + 1)));
        }
        i = i + 1;
    }
    proof {
        assert(bytes@.take(bytes@.len() as int) =~= bytes@);
    }
}

/// The translated form of the given bytes, as `write_bytes` puts them on
/// the wire: every line feed expanded to carriage return plus line feed.
/// This is the computing half of console output; a caller that owns the
/// real device transmits the result byte for byte.
pub fn translate_bytes(bytes: &[u8]) -> (out: Vec<u8>)
    ensures
        out@ == line_translated(bytes@),
{
    let mut out: Vec<u8> = Vec::new();
    let mut i: usize = 0;
    while i < bytes.len()
        invariant
            i <= bytes@.len(),
            out@ == line_translated(bytes@.take(i as int)),
        decreases bytes@.len() - i,
    {
        let c = bytes[i];
        if c == 10 {
            out.push(13);
            out.push(10);
        } else {
            out.push(c);
        }
        proof {
            lemma_line_translated_take_step(bytes@, i as int);
            assert(out@ =~= line_translated(bytes@.take(i + 1)));
        }
        i = i + 1;
    }
    proof {
        assert(bytes@.take(bytes@.len() as int) =~= bytes@);
    }
    out
}

/// Reads available bytes from the console device into the front of `buf`,
/// stopping at the first position where the device has nothing more, and
/// returns how many bytes were read. Never waits for input: an empty device
/// yields zero and leaves the buffer untouched, and a count short of the
/// buffer length means the device ran dry exactly there.
pub fn read_bytes(dev: &mut SimUart, buf: &mut Vec<u8>) -> (n: usize)
    ensures
        n <= old(buf)@.len(),
        final(buf)@.len() == old(buf)@.len(),
        n == (if old(dev).pending_input().len() <= old(buf)@.len() {
            old(dev).pending_input().len() as int
        } else {
            old(buf)@.len() as int
        }),
        final(buf)@ == old(dev).pending_input().take(n as int) + old(buf)@.skip(n as int),
        final(dev).pending_input() == old(dev).pending_input().skip(n as int),
        final(dev).transmitted() == old(dev).transmitted(),
        old(dev).pending_input().len() == 0 ==> n == 0 && final(buf)@ == old(buf)@,
        n < old(buf)@.len() ==> n == old(dev).pending_input().len(),
{
    let ghost avail = dev.pending_input();
    let ghost tx0 = dev.transmitted();
    let ghost buf0 = buf@;
    let len = buf.len();
    let mut i: usize = 0;
    while i < len
        invariant
            buf0 == old(buf)@,
            avail == old(dev).pending_input(),
            tx0 == old(dev).transmitted(),
            i <= len,
            len == buf0.len(),
            buf@.len() == buf0.len(),
            i <= avail.len(),
            dev.pending_input() == avail.skip(i as int),
            dev.transmitted() == tx0,
            buf@ == avail.take(i as int) + buf0.skip(i as int),
        decreases len - i,
    {
        match dev.getchar() {
            Some(c) => {
                buf.set(i, c);
                proof {
                    assert(avail.skip(i as int)[0] == avail[i as int]);
                    assert(dev.pending_input() =~= avail.skip(i + 1));
                    assert(buf@ =~= avail.take(i + 1) + buf0.skip(i + 1));
                }
                i = i + 1;
            },
            None => {
                return i;
            },
        }
    }
    proof {
        assert(buf@ =~= avail.take(len as int) + buf0.skip(len as int));
    }
    len
}

/// The interrupt line of the console. This board routes no console
/// interrupt, so no line is ever reported, even where interrupt-driven
/// wake-up is otherwise configured.
pub fn irq_num() -> (r: Option<usize>)
    ensures
        r is None,
{
    None
}

} // verus!
