//! A trait for rendering a value into a byte buffer.  A host that wants
//! the bytes on a terminal or in a file writes the buffer out itself; the
//! rendering logic stays verifiable.

use vstd::prelude::*;

verus! {

/// Renders a value into a byte buffer.
pub trait Writer {
    /// The representation invariant of the value.
    spec fn inv(&self) -> bool;

    /// The bytes this value renders to.
    spec fn rendered(&self) -> Seq<u8>;

    /// Appends the rendering of this value to the buffer.
    fn write_to(&self, out: &mut Vec<u8>)
        requires
            self.inv(),
        ensures
            final(out)@ == old(out)@ + self.rendered(),
    ;

    /// Appends the rendering of this value and a newline.
    fn write_line_to(&self, out: &mut Vec<u8>)
        requires
            self.inv(),
        ensures
            final(out)@ == old(out)@ + self.rendered() + seq![10u8],
    {
        self.write_to(out);
        out.push(10u8);
    }

    /// Appends the rendering of this value; a buffer needs no flushing, so
    /// this is [`Writer::write_to`].
    fn print_to(&self, out: &mut Vec<u8>)
        requires
            self.inv(),
        ensures
            final(out)@ == old(out)@ + self.rendered(),
    {
        self.write_to(out);
    }

    /// Appends the rendering of this value and a newline; a buffer needs
    /// no flushing, so this is [`Writer::write_line_to`].
    fn print_line_to(&self, out: &mut Vec<u8>)
        requires
            self.inv(),
        ensures
            final(out)@ == old(out)@ + self.rendered() + seq![10u8],
    {
        self.write_line_to(out);
    }
}

} // verus!
