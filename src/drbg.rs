use vstd::prelude::*;
use vstd::string::StringSliceAdditionalSpecFns;

use crate::algorithm::Algorithm;
use crate::session::{fits, lemma_finish_releases, to_bytes, Action, Error, Operation, Reply, Session};

verus! {

/// Value of bytes read least significant first.
pub open spec fn le_value(b: Seq<u8>) -> nat
    decreases b.len(),
{
    if b.len() == 0 {
        0
    } else {
        b[0] as nat + 256 * le_value(b.drop_first())
    }
}

/// Whether `v` is what bytes `b` mean in one of the two byte orders.
pub open spec fn either_order(b: Seq<u8>, v: nat) -> bool {
    v == le_value(b) || v == le_value(b.reverse())
}

/// Relies on u32::from_ne_bytes: the bytes read in the machine's byte order,
/// which is little- or big-endian.
#[verifier::external_body]
fn u32_from_ne(raw: [u8; 4]) -> (r: u32)
    ensures
        either_order(raw@, r as nat),
{
    u32::from_ne_bytes(raw)
}

/// Relies on u64::from_ne_bytes: the bytes read in the machine's byte order,
/// which is little- or big-endian.
#[verifier::external_body]
fn u64_from_ne(raw: [u8; 8]) -> (r: u64)
    ensures
        either_order(raw@, r as nat),
{
    u64::from_ne_bytes(raw)
}

/// A generator drawing from the kernel's deterministic random-bit generator
/// without prediction resistance, over SHA-256. It owns one operation, from
/// which every draw reads.
pub struct DrbgNoprSha256 {
    operation: Operation,
}

impl DrbgNoprSha256 {
    pub closed spec fn operation_spec(&self) -> Operation {
        self.operation
    }

    /// The session that sets a generator up: it binds the transform, installs
    /// `seed` as its key (the kernel refuses to start the transform without
    /// one) and keeps the one operation it accepts. Two sessions from one
    /// seed make the same request; whether the kernel then yields the same
    /// stream to both is the kernel's choice, not this library's.
    pub fn new(seed: &[u8]) -> (s: Session)
        ensures
            s.is_fresh(),
            s.algorithm_spec().encodes("rng".spec_bytes(), "drbg_nopr_sha256".spec_bytes()),
            s.key_spec() == Some(seed@),
            s.input_spec() == Seq::<u8>::empty(),
            s.out_len() == 0,
            s.keeps(),
    {
        let algorithm = Algorithm::new("rng".as_bytes(), "drbg_nopr_sha256".as_bytes());
        Session::new(algorithm, Some(to_bytes(seed)), Vec::new(), 0, true)
    }

    /// The generator that a finished set-up session yields, or its error.
    pub fn from_session(s: Session) -> (r: Result<DrbgNoprSha256, Error>)
        requires
            s.wf(),
            s.finished(),
            s.keeps(),
        ensures
            match r {
                Ok(g) => s.failure() is None && s.operation() == Some(g.operation_spec().fd),
                Err(e) => s.failure() == Some(e),
            },
    {
        match s.into_operation() {
            Ok(operation) => Ok(DrbgNoprSha256 { operation }),
            Err(e) => Err(e),
        }
    }

    /// The operation that every draw reads from.
    pub fn operation(&self) -> (r: Operation)
        ensures
            r == self.operation_spec(),
    {
        self.operation
    }

    /// A read of exactly `n` bytes of output.
    pub fn draw(&self, n: usize) -> (d: Draw)
        ensures
            d.wf(),
            d.operation_spec() == self.operation_spec(),
            d.want() == n,
            d.got() == Seq::<u8>::empty(),
            d.failure() is None,
    {
        Draw::new(self.operation, n)
    }

    /// A 32-bit draw from the four bytes read for it.
    pub fn next_u32_from(raw: &[u8]) -> (r: u32)
        requires
            raw@.len() == 4,
        ensures
            either_order(raw@, r as nat),
    {
        let a: [u8; 4] = [raw[0], raw[1], raw[2], raw[3]];
        assert(a@ =~= raw@);
        u32_from_ne(a)
    }

    /// A 64-bit draw from the eight bytes read for it.
    pub fn next_u64_from(raw: &[u8]) -> (r: u64)
        requires
            raw@.len() == 8,
        ensures
            either_order(raw@, r as nat),
    {
        let a: [u8; 8] = [raw[0], raw[1], raw[2], raw[3], raw[4], raw[5], raw[6], raw[7]];
        assert(a@ =~= raw@);
        u64_from_ne(a)
    }
}

/// A read of exactly `want` bytes from an operation, by as many
/// receives as it takes. A receive that ends the stream early is an error.
pub struct Draw {
    op: Operation,
    want: usize,
    got: Vec<u8>,
    failure: Option<Error>,
}

impl Draw {
    /// A read of exactly `n` bytes from `op`, before any receive.
    pub fn new(op: Operation, n: usize) -> (d: Draw)
        ensures
            d.wf(),
            d.operation_spec() == op,
            d.want() == n,
            d.got() == Seq::<u8>::empty(),
            d.failure() is None,
    {
        Draw { op, want: n, got: Vec::new(), failure: None }
    }

    pub closed spec fn operation_spec(&self) -> Operation {
        self.op
    }

    pub closed spec fn want(&self) -> nat {
        self.want as nat
    }

    /// The bytes received so far, in order.
    pub closed spec fn got(&self) -> Seq<u8> {
        self.got@
    }

    pub closed spec fn failure(&self) -> Option<Error> {
        self.failure
    }

    pub closed spec fn wf(&self) -> bool {
        self.got@.len() <= self.want
    }

    /// The call the read asks for next.
    pub open spec fn next(&self) -> Action {
        if self.failure() is None && self.got().len() < self.want() {
            Action::Recv { op: self.operation_spec(), len: (self.want() - self.got().len()) as usize }
        } else {
            Action::Finish
        }
    }

    pub fn action(&self) -> (a: Action)
        requires
            self.wf(),
        ensures
            a == self.next(),
    {
        if self.failure.is_none() && self.got.len() < self.want {
            Action::Recv { op: self.op, len: self.want - self.got.len() }
        } else {
            Action::Finish
        }
    }

    /// Whether `reply` is a possible outcome of the receive asked for.
    pub fn accepts(&self, reply: &Reply) -> (r: bool)
        requires
            self.wf(),
        ensures
            r == fits(self.next(), *reply, Set::empty()),
    {
        match (self.action(), reply) {
            (Action::Recv { len, .. }, Reply::Data(b)) => b.len() <= len,
            (Action::Recv { .. }, Reply::Failed(_)) => true,
            _ => false,
        }
    }

    /// Takes the outcome of a receive.
    pub fn step(&mut self, reply: Reply)
        requires
            old(self).wf(),
            fits(old(self).next(), reply, Set::empty()),
        ensures
            final(self).wf(),
            final(self).operation_spec() == old(self).operation_spec(),
            final(self).want() == old(self).want(),
            reply is Failed ==> final(self).failure() == Some(Error::Os(reply->Failed_0))
                && final(self).got() == old(self).got(),
            reply is Data && reply->Data_0@.len() == 0 ==> final(self).failure() == Some(Error::UnexpectedEof)
                && final(self).got() == old(self).got(),
            reply is Data && reply->Data_0@.len() > 0 ==> final(self).failure() is None
                && final(self).got() == old(self).got() + reply->Data_0@,
    {
        match reply {
            Reply::Data(b) => {
                if b.len() == 0 {
                    self.failure = Some(Error::UnexpectedEof);
                } else {
                    let mut b = b;
                    self.got.append(&mut b);
                }
            },
            Reply::Failed(e) => self.failure = Some(Error::Os(e)),
            _ => {},
        }
    }

    /// What a finished read came to: its error, or exactly `want` bytes.
    pub fn into_bytes(self) -> (r: Result<Vec<u8>, Error>)
        requires
            self.wf(),
            self.next() is Finish,
        ensures
            match r {
                Ok(b) => self.failure() is None && b@ == self.got() && b@.len() == self.want(),
                Err(e) => self.failure() == Some(e),
            },
    {
        match self.failure {
            Some(e) => Err(e),
            None => Ok(self.got),
        }
    }
}

/// A generator's set-up session ends holding nothing when it failed, and
/// only the generator's operation when it succeeded: the context is already
/// released, and the operation passes to the generator.
pub proof fn lemma_generator_releases(s: Session)
    requires
        s.wf(),
        s.finished(),
        s.keeps(),
    ensures
        s.failure() is Some ==> s.live() == Set::<i32>::empty(),
        s.failure() is None ==> s.operation() is Some && s.live() == set![s.operation()->0],
{
    lemma_finish_releases(s);
}

} // verus!
