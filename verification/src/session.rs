use vstd::prelude::*;
use vstd::utf8::decode_utf8;
use vstd::utf8::encode_utf8;
use vstd::utf8::valid_utf8;

use crate::codec::check_utf8;
use crate::codec::string_from_utf8;
use crate::error::PtyError;
use crate::shell::build_shell_command;
use crate::shell::CommandSpec;
use crate::shell::Platform;
use crate::size::TermSize;

verus! {

/// The mathematical state of a session: what the caller has handed the
/// shell so far, what shell output is buffered and not yet drained, the
/// terminal size, and whether a shell has been spawned.
#[verifier::ext_equal]
pub struct SessionView {
    pub platform: Platform,
    pub size: TermSize,
    pub shell_spawned: bool,
    pub read_buf: Seq<u8>,
    pub written: Seq<u8>,
}

/// The state a fresh session starts in: the fixed startup size, no shell
/// yet, nothing buffered, nothing written.
pub open spec fn initial_view(platform: Platform) -> SessionView {
    SessionView {
        platform,
        size: TermSize::initial_spec(),
        shell_spawned: false,
        read_buf: Seq::empty(),
        written: Seq::empty(),
    }
}

/// A write appends its whole payload, contiguously, to the bytes the shell
/// observes; nothing else changes.
pub open spec fn write_step(v: SessionView, payload: Seq<u8>) -> SessionView {
    SessionView { written: v.written + payload, ..v }
}

/// A resize replaces the terminal size; the pixel dimensions are not
/// caller-controlled and default to zero.
pub open spec fn resize_step(v: SessionView, rows: u16, cols: u16) -> SessionView {
    SessionView { size: TermSize::from_dims_spec(rows, cols), ..v }
}

/// Feeding appends freshly read shell output to the buffered, not yet
/// drained bytes.
pub open spec fn feed_step(v: SessionView, chunk: Seq<u8>) -> SessionView {
    SessionView { read_buf: v.read_buf + chunk, ..v }
}

/// Spawning a shell marks the session as having one; the size it observes
/// is whatever the session holds at that moment.
pub open spec fn spawn_step(v: SessionView) -> SessionView {
    SessionView { shell_spawned: true, ..v }
}

/// A successful drain consumes the whole buffer.
pub open spec fn drain_step(v: SessionView) -> SessionView {
    SessionView { read_buf: Seq::empty(), ..v }
}

/// What the launcher hands the operating system at spawn time: the shell
/// command to run and the size the PTY already has.
pub struct SpawnPlan {
    pub command: CommandSpec,
    pub size: TermSize,
}

/// One pseudo-terminal session.
///
/// The session is the single source of truth the bridge operations work
/// on. The raw device I/O happens outside: the surrounding program feeds
/// the bytes it read from the PTY master into [`Session::feed`] and carries
/// the bytes [`Session::write_to_pty`] returns to the master's writer, each
/// handle behind its own lock so a write, a resize, and a drain never
/// contend on an unrelated resource.
pub struct Session {
    pub platform: Platform,
    pub size: TermSize,
    pub shell_spawned: bool,
    pub read_buf: Vec<u8>,
    /// All bytes handed to the PTY master's writer, in call order.
    pub written: Ghost<Seq<u8>>,
}

impl View for Session {
    type V = SessionView;

    open spec fn view(&self) -> SessionView {
        SessionView {
            platform: self.platform,
            size: self.size,
            shell_spawned: self.shell_spawned,
            read_buf: self.read_buf@,
            written: self.written@,
        }
    }
}

impl Session {
    /// Opens a fresh session for the given platform, sized to the fixed
    /// startup dimensions of 24 rows by 80 columns.
    pub fn new(platform: Platform) -> (s: Session)
        ensures
            s@ == initial_view(platform),
    {
        let s = Session {
            platform,
            size: TermSize::initial(),
            shell_spawned: false,
            read_buf: Vec::new(),
            written: Ghost(Seq::empty()),
        };
        proof {
            assert(s@ =~= initial_view(platform));
        }
        s
    }

    /// Accepts caller input destined for the shell and returns the bytes to
    /// hand to the PTY master's writer: exactly the UTF-8 encoding of
    /// `data`, appended verbatim and contiguously to the session's write
    /// log.
    ///
    /// Sequential calls append in call order; concurrent callers race for
    /// order through the writer lock but never interleave mid-write,
    /// because each call logs its whole payload in one step.
    pub fn write_to_pty(&mut self, data: &str) -> (out: Vec<u8>)
        ensures
            out@ == encode_utf8(data@),
            final(self)@ == write_step(old(self)@, encode_utf8(data@)),
    {
        let out = vstd::slice::slice_to_vec(data.as_bytes());
        let ghost payload = out@;
        self.written = Ghost(self.written@ + payload);
        proof {
            assert(self@ =~= write_step(old(self)@, encode_utf8(data@)));
        }
        out
    }

    /// Applies new dimensions and returns the size to hand to the PTY
    /// master: the requested rows and columns with zero pixel dimensions.
    /// Valid at any time, whether or not a shell has been spawned.
    pub fn resize_pty(&mut self, rows: u16, cols: u16) -> (s: TermSize)
        ensures
            s == TermSize::from_dims_spec(rows, cols),
            final(self)@ == resize_step(old(self)@, rows, cols),
    {
        let s = TermSize::from_dims(rows, cols);
        self.size = s;
        proof {
            assert(self@ =~= resize_step(old(self)@, rows, cols));
        }
        s
    }

    /// Builds the spawn plan for the platform's interactive shell working
    /// in `directory`, and records that a shell now runs. The plan carries
    /// the size the PTY already has: spawning observes the session's
    /// current dimensions and does not change them.
    pub fn create_shell(&mut self, directory: &str) -> (plan: SpawnPlan)
        ensures
            plan.command.is_shell_command(old(self)@.platform, directory@),
            plan.size == old(self)@.size,
            final(self)@ == spawn_step(old(self)@),
    {
        let command = build_shell_command(self.platform, directory);
        let size = self.size;
        self.shell_spawned = true;
        proof {
            assert(self@ =~= spawn_step(old(self)@));
        }
        SpawnPlan { command, size }
    }

    /// Buffers a chunk of shell output that the surrounding program read
    /// from the PTY master, to be drained by a later
    /// [`Session::read_from_pty`] poll.
    pub fn feed(&mut self, chunk: &[u8])
        ensures
            final(self)@ == feed_step(old(self)@, chunk@),
    {
        self.read_buf.extend_from_slice(chunk);
        proof {
            assert(self@ =~= feed_step(old(self)@, chunk@));
        }
    }

    /// Drains the buffered shell output without blocking for more.
    ///
    /// With nothing buffered this returns no data — a poll-nothing-available
    /// outcome, not an error or end-of-stream; the caller re-polls. A
    /// non-empty buffer of valid UTF-8 is returned whole as text and
    /// consumed. A non-empty buffer that is not valid UTF-8 is a decode
    /// failure and stays buffered, unconsumed.
    pub fn read_from_pty(&mut self) -> (r: Result<Option<String>, PtyError>)
        ensures
            old(self)@.read_buf.len() == 0 ==> r == Ok::<Option<String>, PtyError>(None)
                && final(self)@ == old(self)@,
            old(self)@.read_buf.len() > 0 && valid_utf8(old(self)@.read_buf) ==> (r matches Ok(
                Some(text),
            ) && text@ == decode_utf8(old(self)@.read_buf)) && final(self)@ == drain_step(
                old(self)@,
            ),
            old(self)@.read_buf.len() > 0 && !valid_utf8(old(self)@.read_buf) ==> r == Err::<
                Option<String>,
                PtyError,
            >(PtyError::Decode) && final(self)@ == old(self)@,
    {
        if self.read_buf.len() == 0 {
            return Ok(None);
        }
        if check_utf8(self.read_buf.as_slice()) {
            let mut taken: Vec<u8> = Vec::new();
            core::mem::swap(&mut taken, &mut self.read_buf);
            let text = string_from_utf8(taken);
            proof {
                assert(self@ =~= drain_step(old(self)@));
            }
            Ok(Some(text))
        } else {
            Err(PtyError::Decode)
        }
    }
}

/// The concatenation of a sequence of write payloads, in order.
pub open spec fn concat_payloads(payloads: Seq<Seq<u8>>) -> Seq<u8>
    decreases payloads.len(),
{
    if payloads.len() == 0 {
        Seq::empty()
    } else {
        payloads[0] + concat_payloads(payloads.drop_first())
    }
}

/// The session state after a sequence of writes, applied in order.
pub open spec fn apply_writes(v: SessionView, payloads: Seq<Seq<u8>>) -> SessionView
    decreases payloads.len(),
{
    if payloads.len() == 0 {
        v
    } else {
        apply_writes(write_step(v, payloads[0]), payloads.drop_first())
    }
}

/// Law: for any sequence of writes issued without interleaving reads, the
/// bytes the shell observes are exactly the concatenation of the payloads
/// in call order, and nothing else about the session changes.
pub proof fn lemma_writes_concatenate(v: SessionView, payloads: Seq<Seq<u8>>)
    ensures
        apply_writes(v, payloads).written == v.written + concat_payloads(payloads),
        apply_writes(v, payloads) == (SessionView {
            written: v.written + concat_payloads(payloads),
            ..v
        }),
    decreases payloads.len(),
{
    if payloads.len() == 0 {
        assert(v.written + concat_payloads(payloads) =~= v.written);
        assert(apply_writes(v, payloads) =~= (SessionView {
            written: v.written + concat_payloads(payloads),
            ..v
        }));
    } else {
        let first = payloads[0];
        let rest = payloads.drop_first();
        lemma_writes_concatenate(write_step(v, first), rest);
        assert((v.written + first) + concat_payloads(rest) =~= v.written + (first
            + concat_payloads(rest)));
        assert(apply_writes(v, payloads) =~= (SessionView {
            written: v.written + concat_payloads(payloads),
            ..v
        }));
    }
}

/// Law: two writes with payloads `a` and `b` never interleave. Whichever
/// order the writer lock grants, the write log grows by the two payloads
/// whole, each contiguous; only their relative order is unspecified.
pub proof fn lemma_two_writes_contiguous(v: SessionView, a: Seq<u8>, b: Seq<u8>)
    ensures
        apply_writes(v, seq![a, b]).written == v.written + a + b,
        apply_writes(v, seq![b, a]).written == v.written + b + a,
{
    lemma_writes_concatenate(v, seq![a, b]);
    lemma_writes_concatenate(v, seq![b, a]);
    lemma_concat_two_payloads(a, b);
    lemma_concat_two_payloads(b, a);
    assert(v.written + (a + b) =~= v.written + a + b);
    assert(v.written + (b + a) =~= v.written + b + a);
}

proof fn lemma_concat_two_payloads(a: Seq<u8>, b: Seq<u8>)
    ensures
        concat_payloads(seq![a, b]) == a + b,
{
    assert(seq![a, b].drop_first() =~= seq![b]);
    assert(seq![b].drop_first() =~= Seq::<Seq<u8>>::empty());
    assert(concat_payloads(Seq::<Seq<u8>>::empty()) =~= Seq::<u8>::empty());
    assert(concat_payloads(seq![b]) =~= b);
    assert(concat_payloads(seq![a, b]) =~= a + b);
}

/// Law: a resize succeeds at any time before a shell is spawned, and the
/// next spawn observes a PTY already sized to the requested rows and
/// columns with zero pixel dimensions.
pub proof fn lemma_resize_then_spawn_observes_size(v: SessionView, rows: u16, cols: u16)
    ensures
        resize_step(v, rows, cols).size == TermSize::from_dims_spec(rows, cols),
        spawn_step(resize_step(v, rows, cols)).size == TermSize::from_dims_spec(rows, cols),
{
}

} // verus!
