//! Framing of text for the PL011 serial line.
//!
//! Every `\n` written through the console reaches the wire as `\r\n`, so that
//! a terminal returns the carriage as well as feeding the line. The bytes are
//! queued in a [`Uart`]; the caller drains the queue into the transmitter,
//! waiting while [`tx_fifo_full`] says the FIFO cannot take another byte.
use vstd::prelude::*;
use vstd::string::StringSliceAdditionalSpecFns;

verus! {

broadcast use vstd::seq_lib::group_seq_properties;

/// Line feed.
pub const LF: u8 = 0x0a;

/// Carriage return.
pub const CR: u8 = 0x0d;

/// Bit of the flag register (`FR`) that is set while the transmit FIFO is full.
pub const PL011_TX_FULL: u32 = 0x20;

/// Physical address of the PL011 on QEMU `virt`.
pub const PL011_BASE: usize = 0x0900_0000;

/// Offset of the flag register from [`PL011_BASE`].
pub const PL011_FR_OFFSET: usize = 0x18;

/// How one byte of text is sent: a line feed becomes `\r\n`, any other byte
/// goes as it is.
pub open spec fn serial_byte(b: u8) -> Seq<u8> {
    if b == LF {
        seq![CR, LF]
    } else {
        seq![b]
    }
}

/// The bytes put on the wire for `text`.
pub open spec fn serial_bytes(text: Seq<u8>) -> Seq<u8>
    decreases text.len(),
{
    if text.len() == 0 {
        Seq::empty()
    } else {
        serial_bytes(text.drop_last()) + serial_byte(text.last())
    }
}

/// Recovers the text from the bytes on the wire: each `\r\n` pair goes back
/// to the single `\n` it was sent for.
pub open spec fn unframe(wire: Seq<u8>) -> Seq<u8>
    decreases wire.len(),
{
    if wire.len() == 0 {
        Seq::empty()
    } else if wire.len() >= 2 && wire.last() == LF && wire[wire.len() - 2] == CR {
        unframe(wire.take(wire.len() - 2)).push(LF)
    } else {
        unframe(wire.drop_last()).push(wire.last())
    }
}

/// Framing is compositional: sending `a` and then `b` puts the same bytes on
/// the wire as sending `a + b` at once.
pub proof fn serial_bytes_concat(a: Seq<u8>, b: Seq<u8>)
    ensures
        serial_bytes(a + b) == serial_bytes(a) + serial_bytes(b),
    decreases b.len(),
{
    if b.len() == 0 {
        assert(a + b =~= a);
    } else {
        serial_bytes_concat(a, b.drop_last());
        assert((a + b).drop_last() =~= a + b.drop_last());
        assert((a + b).last() == b.last());
    }
}

/// Framing loses nothing: the text can be read back from the wire bytes.
pub proof fn unframe_serial_bytes(text: Seq<u8>)
    ensures
        unframe(serial_bytes(text)) == text,
    decreases text.len(),
{
    if text.len() > 0 {
        unframe_serial_bytes(text.drop_last());
        let prefix = serial_bytes(text.drop_last());
        let wire = serial_bytes(text);
        if text.last() == LF {
            assert(wire.take(wire.len() - 2) =~= prefix);
        } else {
            assert(wire.drop_last() =~= prefix);
        }
        assert(text.drop_last().push(text.last()) =~= text);
    }
}

/// On the wire every line feed directly follows a carriage return.
pub proof fn serial_bytes_lf_after_cr(text: Seq<u8>, i: int)
    requires
        0 <= i < serial_bytes(text).len(),
        serial_bytes(text)[i] == LF,
    ensures
        i >= 1,
        serial_bytes(text)[i - 1] == CR,
    decreases text.len(),
{
    if text.len() > 0 {
        let prefix = serial_bytes(text.drop_last());
        if i < prefix.len() {
            serial_bytes_lf_after_cr(text.drop_last(), i);
        }
    }
}

/// Whether the transmit FIFO is full according to flag register value `flags`.
pub fn tx_fifo_full(flags: u32) -> (r: bool)
    ensures
        r == (flags & PL011_TX_FULL != 0),
{
    flags & PL011_TX_FULL != 0
}

/// The word written to the data register to send `byte`.
pub fn data_register_word(byte: u8) -> (r: u32)
    ensures
        r == byte as u32,
{
    byte as u32
}

/// The serial console: the bytes written so far and not yet handed to the
/// transmitter.
pub struct Uart {
    pending: Vec<u8>,
}

impl View for Uart {
    type V = Seq<u8>;

    closed spec fn view(&self) -> Seq<u8> {
        self.pending@
    }
}

impl Uart {
    /// A console with nothing queued.
    pub fn new() -> (r: Self)
        ensures
            r@ == Seq::<u8>::empty(),
    {
        Uart { pending: Vec::new() }
    }

    /// Queues one byte exactly as given, with no line-ending translation.
    pub fn write_byte(&mut self, byte: u8)
        ensures
            final(self)@ == old(self)@.push(byte),
    {
        self.pending.push(byte);
    }

    /// Queues the bytes of `text`, each `\n` preceded by `\r`.
    pub fn write_bytes(&mut self, text: &[u8])
        ensures
            final(self)@ == old(self)@ + serial_bytes(text@),
    {
        let mut i: usize = 0;
        while i < text.len()
            invariant
                i <= text@.len(),
                self@ == old(self)@ + serial_bytes(text@.take(i as int)),
            decreases text@.len() - i,
        {
            let byte = text[i];
            assert(text@.take(i + 1).drop_last() =~= text@.take(i as int));
            if byte == LF {
                self.write_byte(CR);
            }
            self.write_byte(byte);
            i = i + 1;
        }
        assert(text@.take(text@.len() as int) =~= text@);
    }

    /// Queues the UTF-8 bytes of `s`, each `\n` preceded by `\r`.
    pub fn write_str(&mut self, s: &str)
        ensures
            final(self)@ == old(self)@ + serial_bytes(s.spec_bytes()),
    {
        self.write_bytes(s.as_bytes());
    }

    /// Queues `s` as [`Uart::write_str`] does.
    pub fn write_raw(&mut self, s: &str)
        ensures
            final(self)@ == old(self)@ + serial_bytes(s.spec_bytes()),
    {
        self.write_str(s);
    }

    /// Hands over the queued bytes, in the order they were written, and leaves
    /// the queue empty.
    pub fn take_pending(&mut self) -> (r: Vec<u8>)
        ensures
            r@ == old(self)@,
            final(self)@ == Seq::<u8>::empty(),
    {
        let mut taken: Vec<u8> = Vec::new();
        std::mem::swap(&mut taken, &mut self.pending);
        taken
    }
}

} // verus!
