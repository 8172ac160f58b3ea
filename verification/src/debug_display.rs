//! The debug log: a write-only CSR group through which the guest prints text,
//! and the dashboard-side scrollback that collects the printed fragments into
//! lines, keeping the last 100.

use std::collections::VecDeque;
use std::sync::mpsc::Receiver;
use std::sync::mpsc::Sender;

use vstd::prelude::*;
use vstd::string::*;

use crate::channel::channel_send;
use crate::channel::channel_try_recv;
use crate::csrs::Csr;
use crate::fault::Fault;

verus! {

/// Greatest number of scrollback lines kept; older lines are evicted first.
pub const SCROLLBACK_LINES: usize = 100;

/// Greatest number of queued messages one `update` call drains, so that the
/// render loop stays bounded; the rest wait for the next frame.
pub const UPDATE_DRAIN_LIMIT: usize = 4096;

/// One message from the debug-log device to the dashboard.
#[derive(Debug)]
pub enum DebugDisplayMessage {
    /// A text fragment to append to the scrollback.
    S(String),
    /// Drop all scrollback.
    Clear,
}

/// The ghost record of one emitted message, kept by the device so that
/// contracts can speak of everything it ever sent, in order.
pub enum DebugEntry {
    /// A text fragment, by its characters.
    Text(Seq<char>),
    /// A clear command.
    Clear,
}

/// The characters that decoding a byte sequence as UTF-8, with replacement
/// of invalid sequences, yields. A function of the bytes alone.
pub uninterp spec fn lossy_text_of(bytes: Seq<u8>) -> Seq<char>;

/// Relies on String::from_utf8_lossy: the decoded text depends on the bytes
/// alone.
#[verifier::external_body]
fn utf8_lossy(bytes: &[u8]) -> (r: String)
    ensures
        r@ == lossy_text_of(bytes@),
{
    String::from_utf8_lossy(bytes).into_owned()
}

/// The device behind the four debug-log CSR identifiers.
pub struct DebugDisplayCsr {
    pub send: Sender<DebugDisplayMessage>,
    pub length: usize,
    pub entries: Ghost<Seq<DebugEntry>>,
}

impl DebugDisplayCsr {
    /// A debug-log device that emits into the given queue, with no length
    /// latched and nothing sent yet.
    pub fn new(send: Sender<DebugDisplayMessage>) -> (d: DebugDisplayCsr)
        ensures
            d.send == send,
            d.length == 0,
            d.entries@ =~= Seq::<DebugEntry>::empty(),
    {
        DebugDisplayCsr { send, length: 0, entries: Ghost(Seq::empty()) }
    }

    /// Emit the latched number of bytes starting at `addr` as one text
    /// fragment, decoded as UTF-8 with replacement.
    pub fn print(&mut self, ram: &[u8], addr: usize)
        requires
            addr + old(self).length <= ram@.len(),
        ensures
            final(self).send == old(self).send,
            final(self).length == old(self).length,
            final(self).entries@ == old(self).entries@.push(
                DebugEntry::Text(
                    lossy_text_of(ram@.subrange(addr as int, addr + old(self).length)),
                ),
            ),
    {
        let total = ram.len();
        proof {
            assert(addr + self.length <= total);
        }
        let bytes: &[u8] = &ram[addr..addr + self.length];
        let text = utf8_lossy(bytes);
        self.entries = Ghost(self.entries@.push(DebugEntry::Text(text@)));
        channel_send(&self.send, DebugDisplayMessage::S(text));
    }

    /// Emit a single line break.
    pub fn newline(&mut self)
        ensures
            final(self).send == old(self).send,
            final(self).length == old(self).length,
            final(self).entries@ == old(self).entries@.push(DebugEntry::Text(seq!['\n'])),
    {
        let text = "\n".to_owned();
        proof {
            reveal_strlit("\n");
            assert(text@ =~= seq!['\n']);
        }
        self.entries = Ghost(self.entries@.push(DebugEntry::Text(text@)));
        channel_send(&self.send, DebugDisplayMessage::S(text));
    }

    /// Latch the byte count for the next print.
    pub fn length(&mut self, data: u32)
        ensures
            final(self).send == old(self).send,
            final(self).length == data as usize,
            final(self).entries@ == old(self).entries@,
    {
        self.length = data as usize;
    }

    /// Emit a clear command, dropping all scrollback on the dashboard.
    pub fn clear(&mut self)
        ensures
            final(self).send == old(self).send,
            final(self).length == old(self).length,
            final(self).entries@ == old(self).entries@.push(DebugEntry::Clear),
    {
        self.entries = Ghost(self.entries@.push(DebugEntry::Clear));
        channel_send(&self.send, DebugDisplayMessage::Clear);
    }
}

/// What one CSR write does to the debug-log device: printing emits the
/// latched number of bytes read from RAM at the operand address (an access
/// past the end of memory faults), the other identifiers emit a line break,
/// latch the length, or emit a clear command; a foreign identifier is
/// refused.
pub open spec fn spec_debug_write(
    pre: DebugDisplayCsr,
    post: DebugDisplayCsr,
    csr: u32,
    ram: Seq<u8>,
    data: u32,
    r: Result<(), Fault>,
) -> bool {
    &&& post.send == pre.send
    &&& if csr == 1100 {
        if data + pre.length <= ram.len() {
            &&& r == Result::<(), Fault>::Ok(())
            &&& post.length == pre.length
            &&& post.entries@ == pre.entries@.push(
                DebugEntry::Text(lossy_text_of(ram.subrange(data as int, data + pre.length))),
            )
        } else {
            &&& r == Result::<(), Fault>::Err(Fault::OutOfRangeAccess(data))
            &&& post == pre
        }
    } else if csr == 1101 {
        &&& r == Result::<(), Fault>::Ok(())
        &&& post.length == pre.length
        &&& post.entries@ == pre.entries@.push(DebugEntry::Text(seq!['\n']))
    } else if csr == 1102 {
        &&& r == Result::<(), Fault>::Ok(())
        &&& post.length == data as usize
        &&& post.entries@ == pre.entries@
    } else if csr == 1103 {
        &&& r == Result::<(), Fault>::Ok(())
        &&& post.length == pre.length
        &&& post.entries@ == pre.entries@.push(DebugEntry::Clear)
    } else {
        &&& r == Result::<(), Fault>::Err(Fault::UnknownCsr(csr))
        &&& post == pre
    }
}

impl Csr for DebugDisplayCsr {
    /// The debug log refuses to be read.
    fn read(&mut self, csr: u32, ram: &mut Vec<u8>) -> (r: Result<u32, Fault>)
        ensures
            final(ram)@ == old(ram)@,
            *final(self) == *old(self),
            r == Result::<u32, Fault>::Err(Fault::CsrReadDenied(csr)),
    {
        Err(Fault::CsrReadDenied(csr))
    }

    /// Print from RAM, emit a line break, latch the length, or clear.
    fn write(&mut self, csr: u32, ram: &mut Vec<u8>, data: u32) -> (r: Result<(), Fault>)
        ensures
            final(ram)@ == old(ram)@,
            spec_debug_write(*old(self), *final(self), csr, old(ram)@, data, r),
    {
        if csr == 1100 {
            let addr = data as usize;
            if addr > ram.len() || self.length > ram.len() - addr {
                return Err(Fault::OutOfRangeAccess(data));
            }
            self.print(ram.as_slice(), addr);
            Ok(())
        } else if csr == 1101 {
            self.newline();
            Ok(())
        } else if csr == 1102 {
            self.length(data);
            Ok(())
        } else if csr == 1103 {
            self.clear();
            Ok(())
        } else {
            Err(Fault::UnknownCsr(csr))
        }
    }
}

/// One character applied to the scrollback: a line break opens a new empty
/// line, any other character is appended to the last line.
pub open spec fn spec_push_char(lines: Seq<Seq<char>>, c: char) -> Seq<Seq<char>>
    recommends
        lines.len() >= 1,
{
    if c == '\n' {
        lines.push(Seq::empty())
    } else {
        lines.update(lines.len() - 1, lines.last().push(c))
    }
}

/// A fragment applied to the scrollback, character by character from the
/// left.
pub open spec fn spec_push_chars(lines: Seq<Seq<char>>, cs: Seq<char>) -> Seq<Seq<char>>
    decreases cs.len(),
{
    if cs.len() == 0 {
        lines
    } else {
        spec_push_chars(spec_push_char(lines, cs[0]), cs.skip(1))
    }
}

/// The scrollback reduced to its last `SCROLLBACK_LINES` lines.
pub open spec fn spec_evict(lines: Seq<Seq<char>>) -> Seq<Seq<char>> {
    if lines.len() <= SCROLLBACK_LINES {
        lines
    } else {
        lines.skip(lines.len() - SCROLLBACK_LINES)
    }
}

/// The scrollback after one text fragment: the characters applied in order,
/// then the oldest lines evicted.
pub open spec fn spec_push_str(lines: Seq<Seq<char>>, cs: Seq<char>) -> Seq<Seq<char>> {
    spec_evict(spec_push_chars(lines, cs))
}

/// Applying a fragment and then one more character equals applying the
/// fragment extended by that character.
proof fn lemma_push_chars_snoc(lines: Seq<Seq<char>>, cs: Seq<char>, c: char)
    ensures
        spec_push_chars(lines, cs.push(c)) == spec_push_char(spec_push_chars(lines, cs), c),
    decreases cs.len(),
{
    if cs.len() == 0 {
        assert(cs.push(c)[0] == c);
        assert(cs.push(c).skip(1) =~= Seq::<char>::empty());
        assert(spec_push_chars(lines, cs.push(c)) == spec_push_chars(
            spec_push_char(lines, c),
            Seq::<char>::empty(),
        ));
        assert(spec_push_chars(spec_push_char(lines, c), Seq::<char>::empty()) == spec_push_char(
            lines,
            c,
        ));
    } else {
        assert(cs.push(c)[0] == cs[0]);
        assert(cs.push(c).skip(1) =~= cs.skip(1).push(c));
        assert(spec_push_chars(lines, cs.push(c)) == spec_push_chars(
            spec_push_char(lines, cs[0]),
            cs.skip(1).push(c),
        ));
        lemma_push_chars_snoc(spec_push_char(lines, cs[0]), cs.skip(1), c);
        assert(spec_push_chars(lines, cs) == spec_push_chars(
            spec_push_char(lines, cs[0]),
            cs.skip(1),
        ));
    }
}

/// The dashboard-side scrollback of printed debug text.
pub struct DebugDisplay {
    pub lines: VecDeque<String>,
    pub recv: Receiver<DebugDisplayMessage>,
}

impl DebugDisplay {
    /// The scrollback always holds at least the line being written and at
    /// most `SCROLLBACK_LINES` lines.
    pub open spec fn wf(&self) -> bool {
        1 <= self.lines@.len() <= SCROLLBACK_LINES
    }

    /// The scrollback as a sequence of lines of characters, oldest first.
    pub open spec fn lines_view(&self) -> Seq<Seq<char>> {
        self.lines@.map_values(|s: String| s@)
    }

    /// A scrollback holding one empty line, fed from the given queue.
    pub fn new(recv: Receiver<DebugDisplayMessage>) -> (d: DebugDisplay)
        ensures
            d.wf(),
            d.lines_view() =~= seq![Seq::<char>::empty()],
    {
        let mut lines: VecDeque<String> = VecDeque::new();
        lines.push_back(String::new());
        proof {
            assert(lines@.map_values(|s: String| s@) =~= seq![Seq::<char>::empty()]);
        }
        DebugDisplay { lines, recv }
    }

    /// Drop all scrollback, leaving one empty line.
    pub fn clear(&mut self)
        ensures
            final(self).wf(),
            final(self).lines_view() =~= seq![Seq::<char>::empty()],
            final(self).recv == old(self).recv,
    {
        self.lines.clear();
        self.lines.push_back(String::new());
        proof {
            assert(self.lines@.map_values(|s: String| s@) =~= seq![Seq::<char>::empty()]);
        }
    }

    /// Append one text fragment: characters in order, a line break opening a
    /// new line, then the oldest lines beyond the scrollback bound evicted.
    pub fn push_str(&mut self, s: &str)
        requires
            old(self).wf(),
        ensures
            final(self).wf(),
            final(self).lines_view() == spec_push_str(old(self).lines_view(), s@),
            final(self).recv == old(self).recv,
    {
        let n = s.unicode_len();
        let mut i: usize = 0;
        while i < n
            invariant
                n == s@.len(),
                i <= n,
                self.lines@.len() >= 1,
                self.lines_view() == spec_push_chars(old(self).lines_view(), s@.take(i as int)),
                self.recv == old(self).recv,
            decreases n - i,
        {
            let ghost prev = self.lines_view();
            let c = s.get_char(i);
            if c == '\n' {
                self.lines.push_back(String::new());
                proof {
                    assert(self.lines@.map_values(|t: String| t@) =~= prev.push(
                        Seq::<char>::empty(),
                    ));
                }
            } else {
                let last = self.lines.pop_back();
                match last {
                    Option::Some(mut line) => {
                        let piece = s.substring_char(i, i + 1);
                        line.append(piece);
                        self.lines.push_back(line);
                        proof {
                            assert(piece@ =~= seq![s@[i as int]]);
                            assert(line@ =~= prev.last().push(s@[i as int]));
                            assert(self.lines@.map_values(|t: String| t@) =~= prev.update(
                                prev.len() - 1,
                                prev.last().push(s@[i as int]),
                            ));
                        }
                    },
                    Option::None => {
                        proof {
                            assert(false);
                        }
                    },
                }
            }
            proof {
                assert(s@.take(i + 1) =~= s@.take(i as int).push(s@[i as int]));
                lemma_push_chars_snoc(old(self).lines_view(), s@.take(i as int), s@[i as int]);
            }
            i = i + 1;
        }
        proof {
            assert(s@.take(n as int) =~= s@);
        }
        let ghost full = self.lines_view();
        while self.lines.len() > SCROLLBACK_LINES
            invariant
                1 <= self.lines@.len() <= full.len(),
                self.lines@.len() >= SCROLLBACK_LINES || self.lines@.len() == full.len(),
                self.lines_view() =~= full.skip(full.len() - self.lines@.len()),
                self.recv == old(self).recv,
            decreases self.lines@.len(),
        {
            let ghost before = self.lines@;
            let ghost k = full.len() - before.len();
            self.lines.pop_front();
            proof {
                assert forall|j: int| 0 <= j < self.lines@.len() implies #[trigger] self.lines_view()[j]
                    == full[k + 1 + j] by {
                    assert(self.lines@[j] == before[j + 1]);
                    assert(before.map_values(|t: String| t@)[j + 1] == full.skip(k)[j + 1]);
                }
                assert(self.lines_view() =~= full.skip(k + 1));
            }
        }
        proof {
            if full.len() <= SCROLLBACK_LINES {
                assert(self.lines_view() =~= full.skip(0));
                assert(full.skip(0) =~= full);
            }
            assert(self.lines_view() =~= spec_evict(full));
        }
    }

    /// Drain queued messages into the scrollback, oldest first, applying each
    /// fragment or clear command in order.
    pub fn update(&mut self)
        requires
            old(self).wf(),
        ensures
            final(self).wf(),
    {
        let mut budget: usize = UPDATE_DRAIN_LIMIT;
        while budget > 0
            invariant
                self.wf(),
            decreases budget,
        {
            budget = budget - 1;
            match channel_try_recv(&self.recv) {
                Option::None => {
                    break ;
                },
                Option::Some(m) => match m {
                    DebugDisplayMessage::S(s) => self.push_str(s.as_str()),
                    DebugDisplayMessage::Clear => self.clear(),
                },
            }
        }
    }
}

} // verus!
