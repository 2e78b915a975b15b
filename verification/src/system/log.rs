use vstd::prelude::*;
use vstd::string::StringSliceAdditionalSpecFns;

verus! {

pub const RESET: &'static str = "\x1b[0m";

/// How grave a log record is.
#[derive(Clone, Copy, Debug, PartialEq, Eq, Structural)]
pub enum Level {
    Error,
    Warn,
    Info,
    Debug,
    Trace,
}

/// The escape sequences that colour a log line.
#[derive(Clone, Copy, Debug)]
pub struct Color {
    pub normal: &'static str,
    pub bright: &'static str,
}

pub fn log_color(level: Level) -> (color: Color)
    ensures
        color.normal@ == match level {
            Level::Error => "\x1b[31m"@,
            Level::Warn => "\x1b[33m"@,
            Level::Info => "\x1b[32m"@,
            Level::Debug => ""@,
            Level::Trace => "\x1b[2m"@,
        },
        color.bright@ == match level {
            Level::Error => "\x1b[1;31m"@,
            Level::Warn => "\x1b[1;33m"@,
            Level::Info => "\x1b[1;32m"@,
            Level::Debug => ""@,
            Level::Trace => "\x1b[2m"@,
        },
{
    match level {
        Level::Error => Color { normal: "\x1b[31m", bright: "\x1b[1;31m" },
        Level::Warn => Color { normal: "\x1b[33m", bright: "\x1b[1;33m" },
        Level::Info => Color { normal: "\x1b[32m", bright: "\x1b[1;32m" },
        Level::Debug => Color { normal: "", bright: "" },
        Level::Trace => Color { normal: "\x1b[2m", bright: "\x1b[2m" },
    }
}

/// The label of a level, five characters wide.
pub fn log_label(level: Level) -> (label: &'static str)
    ensures
        label@ == match level {
            Level::Error => "ERROR"@,
            Level::Warn => "WARN "@,
            Level::Info => "INFO "@,
            Level::Debug => "DEBUG"@,
            Level::Trace => "TRACE"@,
        },
{
    match level {
        Level::Error => "ERROR",
        Level::Warn => "WARN ",
        Level::Info => "INFO ",
        Level::Debug => "DEBUG",
        Level::Trace => "TRACE",
    }
}

/// A line of text in a buffer of `SIZE` bytes, always followed by a NUL
/// byte. Text that does not fit is cut off.
pub struct Buffer<const SIZE: usize> {
    len: usize,
    buff: [u8; SIZE],
}

impl<const SIZE: usize> Buffer<SIZE> {
    /// The text is shorter than the buffer, and a NUL byte follows it.
    pub closed spec fn wf(&self) -> bool {
        &&& self.len < SIZE
        &&& self.buff@[self.len as int] == 0
    }

    /// The text.
    pub closed spec fn view(&self) -> Seq<u8> {
        self.buff@.take(self.len as int)
    }

    pub fn new() -> (buffer: Self)
        ensures
            SIZE > 0 ==> buffer.wf(),
            buffer@.len() == 0,
    {
        Buffer { len: 0, buff: [0u8;SIZE] }
    }

    /// How many bytes of text the buffer still takes.
    pub fn unused(&self) -> (room: usize)
        requires
            self.wf(),
        ensures
            room == SIZE - 1 - self@.len(),
    {
        SIZE - 1 - self.len
    }

    /// The text with the NUL byte that ends it.
    pub fn as_bytes_with_nul(&self) -> (bytes: &[u8])
        requires
            self.wf(),
        ensures
            bytes@ == self@.push(0u8),
    {
        let bytes = &self.buff[0..(self.len + 1)];
        assert(bytes@ =~= self@.push(0u8));
        bytes
    }

    /// Appends as much of `s` as fits.
    pub fn write_str(&mut self, s: &str)
        requires
            old(self).wf(),
        ensures
            final(self).wf(),
            final(self)@ == old(self)@ + s.spec_bytes().take(
                crate::sync::ringbuffer::min_nat(
                    s.spec_bytes().len(),
                    (SIZE - 1 - old(self)@.len()) as nat,
                ) as int,
            ),
    {
        let bytes = s.as_bytes();
        let room = SIZE - 1 - self.len;
        let len = if bytes.len() < room {
            bytes.len()
        } else {
            room
        };
        let start = self.len;
        let mut i: usize = 0;
        while i < len
            invariant
                i <= len,
                start + len < SIZE,
                len <= bytes@.len(),
                start == old(self).len == self.len,
                self.buff@.len() == SIZE,
                self.buff@.take(start as int) == old(self).buff@.take(start as int),
                forall|k: int| 0 <= k < i ==> self.buff@[start + k] == bytes@[k],
            decreases len - i,
        {
            self.buff[start + i] = bytes[i];
            assert(self.buff@.take(start as int) =~= old(self).buff@.take(start as int));
            i += 1;
        }
        self.buff[start + len] = 0;
        self.len = start + len;
        assert(self@ =~= old(self)@ + bytes@.take(len as int));
    }
}

} // verus!
