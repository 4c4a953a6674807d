//! Line-oriented buffering: splitting an incremental character stream on
//! newlines, accumulating a process transcript line by line, and naming the
//! event channel that carries each stream's output.
use vstd::prelude::*;
use vstd::string::StringExecFns;
use crate::strutil;

verus! {

/// Buffers an incremental character stream and hands out complete lines.
/// Partial input stays buffered until its newline arrives, so a payload split
/// at arbitrary chunk boundaries is reassembled exactly.
pub struct LineBuffer {
    buf: Vec<char>,
}

impl View for LineBuffer {
    type V = Seq<char>;

    closed spec fn view(&self) -> Seq<char> {
        self.buf@
    }
}

impl LineBuffer {
    /// An empty buffer.
    pub fn new() -> (r: LineBuffer)
        ensures
            r@ == Seq::<char>::empty(),
    {
        LineBuffer { buf: Vec::new() }
    }

    /// Appends one chunk of input to the buffer.
    pub fn feed(&mut self, chunk: &Vec<char>)
        ensures
            final(self)@ == old(self)@ + chunk@,
    {
        let ghost pre = self.buf@;
        let mut i: usize = 0;
        while i < chunk.len()
            invariant
                i <= chunk@.len(),
                self.buf@ == pre + chunk@.subrange(0, i as int),
            decreases chunk@.len() - i,
        {
            self.buf.push(chunk[i]);
            proof {
                assert(self.buf@ =~= pre + chunk@.subrange(0, i + 1));
            }
            i = i + 1;
        }
        proof {
            assert(pre + chunk@.subrange(0, chunk@.len() as int) =~= pre + chunk@);
        }
    }

    /// Takes the text up to the first newline out of the buffer, leaving what
    /// follows the newline; `None` when no complete line is buffered yet.
    pub fn take_line(&mut self) -> (r: Option<Vec<char>>)
        ensures
            match r {
                Some(line) => {
                    let i = strutil::newline_at(old(self)@);
                    &&& 0 <= i < old(self)@.len()
                    &&& line@ == old(self)@.subrange(0, i)
                    &&& final(self)@ == old(self)@.subrange(i + 1, old(self)@.len() as int)
                },
                None => {
                    &&& strutil::newline_at(old(self)@) == old(self)@.len()
                    &&& final(self)@ == old(self)@
                },
            },
    {
        let n = self.buf.len();
        let i = strutil::find_newline(&self.buf);
        if i == n {
            return None;
        }
        let line = strutil::subvec(&self.buf, 0, i);
        let rest = strutil::subvec(&self.buf, i + 1, n);
        self.buf = rest;
        Some(line)
    }
}

/// Accumulates a stream's full transcript: each line is appended together
/// with the newline that ended it, so the whole output is recoverable even
/// when no observer was listening live.
pub struct TranscriptBuffer {
    text: String,
}

impl View for TranscriptBuffer {
    type V = Seq<char>;

    closed spec fn view(&self) -> Seq<char> {
        self.text@
    }
}

impl TranscriptBuffer {
    /// An empty transcript.
    pub fn new() -> (r: TranscriptBuffer)
        ensures
            r@ == Seq::<char>::empty(),
    {
        TranscriptBuffer { text: String::new() }
    }

    /// Appends one line and a trailing newline.
    pub fn push_line(&mut self, line: &str)
        ensures
            final(self)@ == old(self)@ + line@ + seq!['\n'],
    {
        self.text.append(line);
        strutil::push_char(&mut self.text, '\n');
        proof {
            assert(old(self)@ + line@ + seq!['\n'] =~= (old(self)@ + line@).push('\n'));
        }
    }

    /// The accumulated transcript.
    pub fn into_text(self) -> (r: String)
        ensures
            r@ == self@,
    {
        self.text
    }
}

/// The name of the event channel for one stream: a fixed prefix followed by
/// the job's or stream's identifier.
pub fn channel_name(prefix: &str, id: &str) -> (r: String)
    ensures
        r@ == prefix@ + id@,
{
    let mut s = String::from_str(prefix);
    s.append(id);
    s
}

/// Channels built from one prefix and distinct identifiers are distinct, so
/// concurrent observers of different jobs never cross-talk.
pub proof fn lemma_channel_names_distinct(prefix: Seq<char>, a: Seq<char>, b: Seq<char>)
    requires
        a != b,
    ensures
        prefix + a != prefix + b,
{
    if prefix + a == prefix + b {
        assert((prefix + a).len() == (prefix + b).len());
        assert(a.len() == b.len());
        assert forall|i: int| 0 <= i < a.len() implies a[i] == b[i] by {
            assert((prefix + a)[prefix.len() + i] == a[i]);
            assert((prefix + b)[prefix.len() + i] == b[i]);
        }
        assert(a =~= b);
    }
}

} // verus!
