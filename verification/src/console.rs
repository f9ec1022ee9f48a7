//! Text output, reached through a firmware-provided console.

use vstd::prelude::*;

verus! {

/// A sink for console text. The view is everything written so far, so a
/// caller can state exactly what a print operation appended.
pub trait SimpleTextOutput: Sized {
    /// Everything written to this console so far.
    spec fn written(&self) -> Seq<u8>;

    /// Append `text` to the console output.
    fn write(&mut self, text: &[u8])
        ensures
            final(self).written() == old(self).written() + text@,
    ;
}

/// A console that records its output in memory, for tests.
pub struct BufferConsole {
    /// Everything written so far.
    pub data: Vec<u8>,
}

impl BufferConsole {
    /// A console with nothing written yet.
    pub fn new() -> (r: Self)
        ensures
            r.written() == Seq::<u8>::empty(),
    {
        let r = BufferConsole { data: Vec::new() };
        proof {
            assert(r.written() =~= Seq::<u8>::empty());
        }
        r
    }
}

impl SimpleTextOutput for BufferConsole {
    open spec fn written(&self) -> Seq<u8> {
        self.data@
    }

    fn write(&mut self, text: &[u8]) {
        let ghost orig = self.data@;
        let mut i: usize = 0;
        while i < text.len()
            invariant
                i <= text@.len(),
                self.data@ == orig + text@.subrange(0, i as int),
            decreases text@.len() - i,
        {
            self.data.push(text[i]);
            i = i + 1;
            proof {
                assert(orig + text@.subrange(0, i as int)
                    =~= (orig + text@.subrange(0, i - 1)).push(text@[i - 1]));
            }
        }
        proof {
            assert(text@.subrange(0, text@.len() as int) =~= text@);
        }
    }
}

} // verus!
