//! The output capability widgets render through: a sink that can take bytes
//! and switch the foreground color, nothing more. A terminal, a pipe or an
//! in-memory buffer can stand behind it; [`TestBackend`] is the in-memory
//! one, which records every byte it is handed.

use vstd::prelude::*;

use crate::layout::Size;

verus! {

/// A foreground color a backend can be switched to.
#[derive(Clone, Copy, Debug, PartialEq, Eq, Structural)]
pub enum Color {
    Reset,
    Black,
    DarkGrey,
    Red,
    Green,
    LightGreen,
    Yellow,
    Blue,
    Magenta,
    Cyan,
    White,
}

/// Where a widget writes its output.
///
/// `written` is the stream of bytes handed to the sink so far; writing
/// appends to it and changing the color leaves it alone. Color changes are
/// presentation only and carry no bytes of the stream.
pub trait Backend {
    /// The bytes handed to this sink so far.
    spec fn written(&self) -> Seq<u8>;

    /// Append the given bytes to the output.
    fn write_all(&mut self, buf: &[u8])
        ensures
            final(self).written() == old(self).written() + buf@,
    ;

    /// Switch the foreground color for subsequent output.
    fn set_fg(&mut self, color: Color)
        ensures
            final(self).written() == old(self).written(),
    ;
}

/// A backend that renders nowhere and keeps the bytes it was handed, so that
/// output can be inspected afterwards.
#[derive(Debug)]
pub struct TestBackend {
    size: Size,
    bytes: Vec<u8>,
}

impl TestBackend {
    /// An empty backend for a terminal of the given size.
    pub fn new(size: Size) -> (r: Self)
        ensures
            r.size_spec() == size,
            r.written() == Seq::<u8>::empty(),
    {
        TestBackend { size, bytes: Vec::new() }
    }

    /// The size this backend was created with.
    pub closed spec fn size_spec(&self) -> Size {
        self.size
    }

    /// The bytes written so far.
    pub fn bytes(&self) -> (r: &Vec<u8>)
        ensures
            r@ == self.written(),
    {
        &self.bytes
    }
}

impl Backend for TestBackend {
    closed spec fn written(&self) -> Seq<u8> {
        self.bytes@
    }

    fn write_all(&mut self, buf: &[u8]) {
        let mut i: usize = 0;
        while i < buf.len()
            invariant
                i <= buf.len(),
                self.bytes@ == old(self).bytes@ + buf@.subrange(0, i as int),
                self.size == old(self).size,
            decreases buf.len() - i,
        {
            self.bytes.push(buf[i]);
            i += 1;
        }
        proof {
            assert(self.bytes@ =~= old(self).bytes@ + buf@);
        }
    }

    fn set_fg(&mut self, color: Color) {
    }
}

impl PartialEq for TestBackend {
    /// Two backends are equal when they were made for the same size and have
    /// been handed the same bytes.
    fn eq(&self, other: &TestBackend) -> (r: bool) {
        if !(self.size == other.size) {
            return false;
        }
        if self.bytes.len() != other.bytes.len() {
            return false;
        }
        let mut i: usize = 0;
        while i < self.bytes.len()
            invariant
                i <= self.bytes@.len(),
                self.bytes@.len() == other.bytes@.len(),
                forall|j: int| 0 <= j < i ==> self.bytes@[j] == other.bytes@[j],
            decreases self.bytes@.len() - i,
        {
            if self.bytes[i] != other.bytes[i] {
                return false;
            }
            i += 1;
        }
        proof {
            assert(self.bytes@ =~= other.bytes@);
        }
        true
    }
}

impl vstd::std_specs::cmp::PartialEqSpecImpl for TestBackend {
    open spec fn obeys_eq_spec() -> bool {
        true
    }

    closed spec fn eq_spec(&self, other: &TestBackend) -> bool {
        self.size == other.size && self.bytes@ == other.bytes@
    }
}

} // verus!
