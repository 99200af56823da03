use vstd::prelude::*;

use crate::algorithm::Algorithm;

verus! {

/// A failure of the interface: the code the OS reported, a stream that ended
/// before a fixed-size read was filled, or a send that accepted nothing.
#[derive(Clone, Copy, Debug, PartialEq, Eq, Structural)]
pub enum Error {
    Os(i32),
    UnexpectedEof,
    WriteZero,
}

/// An endpoint bound to one transform; it hands out operations.
#[derive(Clone, Copy, Debug, PartialEq, Eq, Structural)]
pub struct Context {
    pub fd: i32,
}

/// A connected endpoint of one use: input goes in, output comes out.
#[derive(Clone, Copy, Debug, PartialEq, Eq, Structural)]
pub struct Operation {
    pub fd: i32,
}

/// The next system call that a session asks its runner to make.
#[derive(Clone, Copy, Debug, PartialEq, Eq, Structural)]
pub enum Action {
    /// Open a fresh endpoint of the crypto family; reply with its handle.
    Open,
    /// Bind the context to the session's algorithm.
    Bind(Context),
    /// Install the session's key on the context.
    SetKey(Context),
    /// Accept a connection on the context; reply with its handle.
    Accept(Context),
    /// Send the `len` input bytes that start at `from`, flagged as "more to
    /// follow"; reply with how many the endpoint took.
    Send { op: Operation, from: usize, len: usize },
    /// Receive at most `len` bytes of output.
    Recv { op: Operation, len: usize },
    /// Release a handle, best effort; reply `Done` whatever happened.
    Close(i32),
    /// Nothing is left to do.
    Finish,
}

/// What the runner reports of the call it made.
#[derive(Debug)]
pub enum Reply {
    Handle(i32),
    Done,
    Count(usize),
    Data(Vec<u8>),
    Failed(i32),
}

/// Whether `r` is a possible outcome of the call `a`, while the handles in
/// `live` are held open.
pub open spec fn fits(a: Action, r: Reply, live: Set<i32>) -> bool {
    match a {
        Action::Open => match r {
            Reply::Handle(h) => h >= 0 && !live.contains(h),
            Reply::Failed(_) => true,
            _ => false,
        },
        Action::Accept(_) => match r {
            Reply::Handle(h) => h >= 0 && !live.contains(h),
            Reply::Failed(_) => true,
            _ => false,
        },
        Action::Bind(_) => r is Done || r is Failed,
        Action::SetKey(_) => r is Done || r is Failed,
        Action::Send { len, .. } => match r {
            Reply::Count(k) => k <= len,
            Reply::Failed(_) => true,
            _ => false,
        },
        Action::Recv { len, .. } => match r {
            Reply::Data(b) => b@.len() <= len,
            Reply::Failed(_) => true,
            _ => false,
        },
        Action::Close(_) => r is Done,
        Action::Finish => false,
    }
}

/// Copies a byte slice into a vector of its own.
pub fn to_bytes(s: &[u8]) -> (r: Vec<u8>)
    ensures
        r@ == s@,
{
    let mut r: Vec<u8> = Vec::new();
    let mut i: usize = 0;
    while i < s.len()
        invariant
            i <= s@.len(),
            r@ == s@.subrange(0, i as int),
        decreases s@.len() - i,
    {
        r.push(s[i]);
        i += 1;
        assert(r@ =~= s@.subrange(0, i as int));
    }
    assert(r@ =~= s@);
    r
}


/// Where a session stands in the fixed call sequence.
#[derive(Clone, Copy, Debug, PartialEq, Eq, Structural)]
pub enum Phase {
    Opening,
    Binding,
    Keying,
    Accepting,
    Sending,
    Receiving,
    Closing,
}

/// One run of the protocol: open a context bound to an algorithm, install a
/// key if there is one, accept one operation, then either stream the input
/// in and read a fixed-size output out (a hash), or keep the operation for
/// later draws (a generator). Every handle opened is released exactly once,
/// on every path; a kept operation passes to the caller.
pub struct Session {
    algorithm: Algorithm,
    key: Option<Vec<u8>>,
    input: Vec<u8>,
    out_len: usize,
    keep: bool,
    phase: Phase,
    ctx: Option<i32>,
    op: Option<i32>,
    sent: usize,
    output: Vec<u8>,
    failure: Option<Error>,
}

pub open spec fn handles(h: Option<i32>) -> Set<i32> {
    match h {
        Some(fd) => set![fd],
        None => Set::empty(),
    }
}

impl Session {
    pub closed spec fn algorithm_spec(&self) -> Algorithm {
        self.algorithm
    }

    pub closed spec fn key_spec(&self) -> Option<Seq<u8>> {
        match self.key {
            Some(k) => Some(k@),
            None => None,
        }
    }

    pub closed spec fn input_spec(&self) -> Seq<u8> {
        self.input@
    }

    /// Size of the output to read, for a session that does not keep its operation.
    pub closed spec fn out_len(&self) -> nat {
        self.out_len as nat
    }

    /// Whether the session hands its operation to the caller rather than reading it.
    pub closed spec fn keeps(&self) -> bool {
        self.keep
    }

    pub closed spec fn phase(&self) -> Phase {
        self.phase
    }

    pub closed spec fn context(&self) -> Option<i32> {
        self.ctx
    }

    pub closed spec fn operation(&self) -> Option<i32> {
        self.op
    }

    /// How many input bytes the endpoint has taken so far, from the front.
    pub closed spec fn sent(&self) -> nat {
        self.sent as nat
    }

    /// The output received so far, in order.
    pub closed spec fn received(&self) -> Seq<u8> {
        self.output@
    }

    pub closed spec fn failure(&self) -> Option<Error> {
        self.failure
    }

    /// The handles that the session holds open.
    pub open spec fn live(&self) -> Set<i32> {
        handles(self.context()).union(handles(self.operation()))
    }

    /// Whether the operation is to pass to the caller when the session ends.
    pub open spec fn hands_over(&self) -> bool {
        self.keeps() && self.failure() is None
    }

    pub closed spec fn wf(&self) -> bool {
        &&& self.input@.len() <= usize::MAX
        &&& self.sent <= self.input@.len()
        &&& self.output@.len() <= self.out_len
        &&& (self.ctx is Some && self.op is Some ==> self.ctx->0 != self.op->0)
        &&& (self.phase != Phase::Closing ==> self.failure is None)
        &&& match self.phase {
            Phase::Opening => self.ctx is None && self.op is None && self.sent == 0
                && self.output@.len() == 0,
            Phase::Binding => self.ctx is Some && self.op is None && self.sent == 0
                && self.output@.len() == 0,
            Phase::Keying => self.ctx is Some && self.op is None && self.sent == 0
                && self.output@.len() == 0 && self.key is Some,
            Phase::Accepting => self.ctx is Some && self.op is None && self.sent == 0
                && self.output@.len() == 0,
            Phase::Sending => self.ctx is Some && self.op is Some && !self.keep
                && self.sent < self.input@.len() && self.output@.len() == 0,
            Phase::Receiving => self.ctx is Some && self.op is Some && !self.keep
                && self.sent == self.input@.len() && self.output@.len() < self.out_len,
            Phase::Closing => self.failure is None ==> (if self.keep {
                self.op is Some
            } else {
                self.sent == self.input@.len() && self.output@.len() == self.out_len
            }),
        }
    }

    /// A well-formed session that has made no call yet.
    pub open spec fn is_fresh(&self) -> bool {
        &&& self.wf()
        &&& self.phase() == Phase::Opening
        &&& self.context() is None
        &&& self.operation() is None
        &&& self.sent() == 0
        &&& self.received() == Seq::<u8>::empty()
        &&& self.failure() is None
    }

    /// The call that the session asks for next.
    pub open spec fn next(&self) -> Action {
        match self.phase() {
            Phase::Opening => Action::Open,
            Phase::Binding => Action::Bind(Context { fd: self.context()->0 }),
            Phase::Keying => Action::SetKey(Context { fd: self.context()->0 }),
            Phase::Accepting => Action::Accept(Context { fd: self.context()->0 }),
            Phase::Sending => Action::Send {
                op: Operation { fd: self.operation()->0 },
                from: self.sent() as usize,
                len: (self.input_spec().len() - self.sent()) as usize,
            },
            Phase::Receiving => Action::Recv {
                op: Operation { fd: self.operation()->0 },
                len: (self.out_len() - self.received().len()) as usize,
            },
            Phase::Closing => if self.operation() is Some && !self.hands_over() {
                Action::Close(self.operation()->0)
            } else if self.context() is Some {
                Action::Close(self.context()->0)
            } else {
                Action::Finish
            },
        }
    }

    /// Whether the session has nothing left to do.
    pub open spec fn finished(&self) -> bool {
        self.next() is Finish
    }

    /// A session that has yet to open its context.
    pub fn new(algorithm: Algorithm, key: Option<Vec<u8>>, input: Vec<u8>, out_len: usize, keep: bool) -> (s: Session)
        ensures
            s.wf(),
            s.algorithm_spec() == algorithm,
            s.key_spec() == (match key { Some(k) => Some(k@), None => None::<Seq<u8>> }),
            s.input_spec() == input@,
            s.out_len() == out_len,
            s.keeps() == keep,
            s.phase() == Phase::Opening,
            s.context() is None,
            s.operation() is None,
            s.sent() == 0,
            s.received() == Seq::<u8>::empty(),
            s.failure() is None,
    {
        // a vector's length is a usize, which bounds every offset into the input
        let total: usize = input.len();
        assert(input@.len() == total);
        Session {
            algorithm,
            key,
            input,
            out_len,
            keep,
            phase: Phase::Opening,
            ctx: None,
            op: None,
            sent: 0,
            output: Vec::new(),
            failure: None,
        }
    }

    /// The call that the session asks for next.
    pub fn action(&self) -> (a: Action)
        requires
            self.wf(),
        ensures
            a == self.next(),
    {
        match self.phase {
            Phase::Opening => Action::Open,
            Phase::Binding => Action::Bind(Context { fd: self.ctx.unwrap() }),
            Phase::Keying => Action::SetKey(Context { fd: self.ctx.unwrap() }),
            Phase::Accepting => Action::Accept(Context { fd: self.ctx.unwrap() }),
            Phase::Sending => Action::Send {
                op: Operation { fd: self.op.unwrap() },
                from: self.sent,
                len: self.input.len() - self.sent,
            },
            Phase::Receiving => Action::Recv {
                op: Operation { fd: self.op.unwrap() },
                len: self.out_len - self.output.len(),
            },
            Phase::Closing => {
                let keep_op = self.keep && self.failure.is_none();
                match (self.op, self.ctx) {
                    (Some(fd), _) if !keep_op => Action::Close(fd),
                    (_, Some(fd)) => Action::Close(fd),
                    _ => Action::Finish,
                }
            },
        }
    }

    /// Whether `reply` is a possible outcome of the call asked for, so that
    /// the session may take it.
    pub fn accepts(&self, reply: &Reply) -> (r: bool)
        requires
            self.wf(),
        ensures
            r == fits(self.next(), *reply, self.live()),
    {
        let fresh = |h: i32| -> (b: bool)
            ensures
                b == (h >= 0 && !self.live().contains(h)),
            {
                h >= 0 && self.ctx != Some(h) && self.op != Some(h)
            };
        match (self.action(), reply) {
            (Action::Open, Reply::Handle(h)) => fresh(*h),
            (Action::Accept(_), Reply::Handle(h)) => fresh(*h),
            (Action::Open, Reply::Failed(_)) => true,
            (Action::Accept(_), Reply::Failed(_)) => true,
            (Action::Bind(_), Reply::Done) => true,
            (Action::Bind(_), Reply::Failed(_)) => true,
            (Action::SetKey(_), Reply::Done) => true,
            (Action::SetKey(_), Reply::Failed(_)) => true,
            (Action::Send { len, .. }, Reply::Count(k)) => *k <= len,
            (Action::Send { .. }, Reply::Failed(_)) => true,
            (Action::Recv { len, .. }, Reply::Data(b)) => b.len() <= len,
            (Action::Recv { .. }, Reply::Failed(_)) => true,
            (Action::Close(_), Reply::Done) => true,
            _ => false,
        }
    }

    fn fail(&mut self, e: Error)
        requires
            old(self).input@.len() <= usize::MAX,
            old(self).sent <= old(self).input@.len(),
            old(self).output@.len() <= old(self).out_len,
            old(self).ctx is Some && old(self).op is Some ==> old(self).ctx->0 != old(self).op->0,
            old(self).failure is None,
        ensures
            *final(self) == (Session { failure: Some(e), phase: Phase::Closing, ..*old(self) }),
            final(self).wf(),
    {
        self.failure = Some(e);
        self.phase = Phase::Closing;
    }

    /// Takes the runner's report of the call asked for, and moves on.
    pub fn step(&mut self, reply: Reply)
        requires
            old(self).wf(),
            fits(old(self).next(), reply, old(self).live()),
        ensures
            final(self).wf(),
            final(self).algorithm_spec() == old(self).algorithm_spec(),
            final(self).key_spec() == old(self).key_spec(),
            final(self).input_spec() == old(self).input_spec(),
            final(self).out_len() == old(self).out_len(),
            final(self).keeps() == old(self).keeps(),
            // handles: a close releases a held handle; an open or an accept adds a fresh one
            old(self).next() is Close ==> old(self).live().contains(old(self).next()->Close_0)
                && final(self).live() == old(self).live().remove(old(self).next()->Close_0),
            reply is Handle ==> final(self).live() == old(self).live().insert(reply->Handle_0),
            !(old(self).next() is Close) && !(reply is Handle) ==> final(self).live() == old(self).live(),
            // which handle is which: only an open sets the context, only an
            // accept sets the operation, and a close clears the one it names
            !(old(self).next() is Close) && !(reply is Handle) ==> final(self).context() == old(self).context()
                && final(self).operation() == old(self).operation(),
            old(self).phase() == Phase::Opening && reply is Handle ==> final(self).operation() == old(self).operation(),
            old(self).phase() == Phase::Accepting && reply is Handle ==> final(self).context() == old(self).context(),
            old(self).next() is Close && old(self).operation() == Some(old(self).next()->Close_0) ==> final(self).operation() is None
                && final(self).context() == old(self).context(),
            old(self).next() is Close && old(self).operation() != Some(old(self).next()->Close_0) ==> final(self).context() is None
                && final(self).operation() == old(self).operation(),
            // failures surface and stay
            old(self).failure() is Some ==> final(self).failure() == old(self).failure(),
            reply is Failed ==> final(self).failure() == Some(Error::Os(reply->Failed_0)),
            reply is Count && reply->Count_0 == 0 ==> final(self).failure() == Some(Error::WriteZero),
            reply is Data && reply->Data_0@.len() == 0 ==> final(self).failure() == Some(Error::UnexpectedEof),
            reply is Handle || reply is Done || (reply is Count && reply->Count_0 > 0)
                || (reply is Data && reply->Data_0@.len() > 0) ==> final(self).failure() == old(self).failure(),
            final(self).failure() is Some ==> final(self).phase() == Phase::Closing,
            // progress of the streams
            reply is Count && reply->Count_0 > 0 ==> final(self).sent() == old(self).sent() + reply->Count_0,
            !(reply is Count && reply->Count_0 > 0) ==> final(self).sent() == old(self).sent(),
            reply is Data ==> final(self).received() == old(self).received() + reply->Data_0@,
            !(reply is Data) ==> final(self).received() == old(self).received(),
            // the sequence of calls
            old(self).phase() == Phase::Opening && reply is Handle ==> final(self).phase() == Phase::Binding
                && final(self).context() == Some(reply->Handle_0),
            old(self).phase() == Phase::Binding && reply is Done ==> final(self).phase() == (if old(self).key_spec() is Some {
                Phase::Keying
            } else {
                Phase::Accepting
            }),
            old(self).phase() == Phase::Keying && reply is Done ==> final(self).phase() == Phase::Accepting,
            old(self).phase() == Phase::Accepting && reply is Handle ==> final(self).operation() == Some(reply->Handle_0)
                && final(self).phase() == (if old(self).keeps() || (old(self).input_spec().len() == 0 && old(self).out_len() == 0) {
                Phase::Closing
            } else if old(self).input_spec().len() == 0 {
                Phase::Receiving
            } else {
                Phase::Sending
            }),
            old(self).phase() == Phase::Sending && reply is Count && reply->Count_0 > 0 ==> final(self).phase() == (
            if final(self).sent() < old(self).input_spec().len() {
                Phase::Sending
            } else if old(self).out_len() == 0 {
                Phase::Closing
            } else {
                Phase::Receiving
            }),
            old(self).phase() == Phase::Receiving && reply is Data && reply->Data_0@.len() > 0 ==> final(self).phase() == (
            if final(self).received().len() < old(self).out_len() {
                Phase::Receiving
            } else {
                Phase::Closing
            }),
            old(self).phase() == Phase::Closing ==> final(self).phase() == Phase::Closing,
    {
        match self.phase {
            Phase::Opening => match reply {
                Reply::Handle(h) => {
                    self.ctx = Some(h);
                    self.phase = Phase::Binding;
                },
                Reply::Failed(e) => self.fail(Error::Os(e)),
                _ => {},
            },
            Phase::Binding => match reply {
                Reply::Done => {
                    self.phase = if self.key.is_some() { Phase::Keying } else { Phase::Accepting };
                },
                Reply::Failed(e) => self.fail(Error::Os(e)),
                _ => {},
            },
            Phase::Keying => match reply {
                Reply::Done => self.phase = Phase::Accepting,
                Reply::Failed(e) => self.fail(Error::Os(e)),
                _ => {},
            },
            Phase::Accepting => match reply {
                Reply::Handle(h) => {
                    self.op = Some(h);
                    self.phase = if self.keep || (self.input.len() == 0 && self.out_len == 0) {
                        Phase::Closing
                    } else if self.input.len() == 0 {
                        Phase::Receiving
                    } else {
                        Phase::Sending
                    };
                },
                Reply::Failed(e) => self.fail(Error::Os(e)),
                _ => {},
            },
            Phase::Sending => match reply {
                Reply::Count(k) => {
                    if k == 0 {
                        self.fail(Error::WriteZero);
                    } else {
                        let n: usize = self.input.len();
                        assert(k <= n - self.sent);
                        self.sent = self.sent + k;
                        if self.sent == self.input.len() {
                            self.phase = if self.out_len == 0 { Phase::Closing } else { Phase::Receiving };
                        }
                    }
                },
                Reply::Failed(e) => self.fail(Error::Os(e)),
                _ => {},
            },
            Phase::Receiving => match reply {
                Reply::Data(b) => {
                    if b.len() == 0 {
                        self.fail(Error::UnexpectedEof);
                    } else {
                        let mut b = b;
                        self.output.append(&mut b);
                        if self.output.len() == self.out_len {
                            self.phase = Phase::Closing;
                        }
                    }
                },
                Reply::Failed(e) => self.fail(Error::Os(e)),
                _ => {},
            },
            Phase::Closing => {
                let keep_op = self.keep && self.failure.is_none();
                if self.op.is_some() && !keep_op {
                    self.op = None;
                } else {
                    self.ctx = None;
                }
            },
        }
    }

    /// The algorithm that `Bind` asks for.
    pub fn algorithm(&self) -> (r: &Algorithm)
        ensures
            *r == self.algorithm_spec(),
    {
        &self.algorithm
    }

    /// The key that `SetKey` asks to install.
    pub fn key(&self) -> (r: Option<&[u8]>)
        ensures
            match r {
                Some(k) => self.key_spec() == Some(k@),
                None => self.key_spec() is None,
            },
    {
        match &self.key {
            Some(k) => Some(k.as_slice()),
            None => None,
        }
    }

    /// The whole input, of which `Send` names a range.
    pub fn input(&self) -> (r: &[u8])
        ensures
            r@ == self.input_spec(),
    {
        self.input.as_slice()
    }

    /// What a finished session that reads its output came to: the error
    /// that stopped it, or exactly the bytes it received.
    pub fn into_result(self) -> (r: Result<Vec<u8>, Error>)
        requires
            self.wf(),
            self.finished(),
        ensures
            match r {
                Ok(out) => self.failure() is None && out@ == self.received(),
                Err(e) => self.failure() == Some(e),
            },
    {
        match self.failure {
            Some(e) => Err(e),
            None => Ok(self.output),
        }
    }

    /// What a finished session that keeps its operation came to: the error
    /// that stopped it, or the operation, which the caller now owns.
    pub fn into_operation(self) -> (r: Result<Operation, Error>)
        requires
            self.wf(),
            self.finished(),
            self.keeps(),
        ensures
            match r {
                Ok(op) => self.failure() is None && self.operation() == Some(op.fd),
                Err(e) => self.failure() == Some(e),
            },
    {
        match self.failure {
            Some(e) => Err(e),
            None => Ok(Operation { fd: self.op.unwrap() }),
        }
    }
}

/// When a session finishes it holds no handle open, but for an operation
/// that it hands to the caller: each handle it opened it has released.
pub proof fn lemma_finish_releases(s: Session)
    requires
        s.wf(),
        s.finished(),
    ensures
        s.hands_over() ==> s.operation() is Some && s.live() == set![s.operation()->0],
        !s.hands_over() ==> s.live() == Set::<i32>::empty(),
{
    assert(s.live() =~= (if s.hands_over() { set![s.operation()->0] } else { Set::<i32>::empty() }));
}

/// A call to release a handle names one that the session holds, and a session
/// never asks to release the operation that it hands to the caller.
pub proof fn lemma_close_held(s: Session)
    requires
        s.wf(),
        s.next() is Close,
    ensures
        s.live().contains(s.next()->Close_0),
        s.hands_over() ==> s.next()->Close_0 != s.operation()->0,
{
}

/// A session that reads its output and finishes without a failure has had
/// its whole input taken, in order, and has received exactly the output size.
pub proof fn lemma_success_complete(s: Session)
    requires
        s.wf(),
        s.finished(),
        !s.keeps(),
        s.failure() is None,
    ensures
        s.sent() == s.input_spec().len(),
        s.received().len() == s.out_len(),
{
}


/// Each send asks for the rest of the input from exactly where the endpoint
/// stopped taking it, and each receive for exactly what the output still
/// lacks: however few bytes each call moves, the pieces join up end to end.
pub proof fn lemma_streams_resume(s: Session)
    requires
        s.wf(),
    ensures
        s.next() is Send ==> s.next()->Send_from == s.sent()
            && s.sent() + s.next()->Send_len == s.input_spec().len()
            && s.next()->Send_len > 0,
        s.next() is Recv ==> s.received().len() + s.next()->Recv_len == s.out_len()
            && s.next()->Recv_len > 0,
{
}

/// What every well-formed session keeps: a session that is not closing has
/// met no failure, its context and operation are distinct handles, and its
/// streams stay within the input and the output size.
pub proof fn lemma_wf_facts(s: Session)
    requires
        s.wf(),
    ensures
        s.phase() != Phase::Closing ==> s.failure() is None,
        s.context() is Some && s.operation() is Some ==> s.context()->0 != s.operation()->0,
        s.sent() <= s.input_spec().len(),
        s.received().len() <= s.out_len(),
{
}

} // verus!
