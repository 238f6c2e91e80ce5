//! Sinks for the generated text.
use vstd::prelude::*;

verus! {

/// A sink that writes the generated text to standard output as it comes.
#[derive(Debug, Clone, Copy, PartialEq, Eq, Structural)]
pub struct StdoutWriter;

/// A sink that collects the generated text and writes it to `path` once, when
/// flushed.
#[derive(Debug)]
pub struct FileWriter {
    path: String,
    buffer: String,
}

impl FileWriter {
    pub closed spec fn spec_path(&self) -> Seq<char> {
        self.path@
    }

    /// The text written since the last flush.
    pub closed spec fn spec_buffer(&self) -> Seq<char> {
        self.buffer@
    }

    pub fn new(path: String) -> (r: Self)
        ensures
            r.spec_path() == path@,
            r.spec_buffer() == Seq::<char>::empty(),
    {
        FileWriter { path, buffer: String::new() }
    }

    /// Appends `content` to the text to be written.
    pub fn write(&mut self, content: &str)
        ensures
            final(self).spec_path() == old(self).spec_path(),
            final(self).spec_buffer() == old(self).spec_buffer() + content@,
    {
        self.buffer.append(content);
    }

    pub fn path(&self) -> (r: &str)
        ensures
            r@ == self.spec_path(),
    {
        self.path.as_str()
    }

    pub fn buffer(&self) -> (r: &str)
        ensures
            r@ == self.spec_buffer(),
    {
        self.buffer.as_str()
    }

    /// Forgets the collected text, once it has been written.
    pub fn clear(&mut self)
        ensures
            final(self).spec_path() == old(self).spec_path(),
            final(self).spec_buffer() == Seq::<char>::empty(),
    {
        self.buffer = String::new();
    }
}

} // verus!
