use vstd::prelude::*;

use crate::algorithm::Algorithm;
use crate::drbg::Draw;
use crate::session::{fits, Action, Context, Error, Operation, Reply};

verus! {

/// Where the opening of a context stands.
#[derive(Clone, Copy, Debug, PartialEq, Eq, Structural)]
pub enum OpenPhase {
    Opening,
    Binding,
    Closing,
}

/// Opens an endpoint and binds it to an algorithm, as one unit: if the bind
/// fails, the endpoint is released before the error is handed back, so no
/// half-made context is left behind.
pub struct Opener {
    algorithm: Algorithm,
    phase: OpenPhase,
    ctx: Option<i32>,
    failure: Option<Error>,
}

impl Opener {
    pub closed spec fn algorithm_spec(&self) -> Algorithm {
        self.algorithm
    }

    pub closed spec fn phase(&self) -> OpenPhase {
        self.phase
    }

    /// The endpoint held open, if any.
    pub closed spec fn context(&self) -> Option<i32> {
        self.ctx
    }

    pub closed spec fn failure(&self) -> Option<Error> {
        self.failure
    }

    pub open spec fn live(&self) -> Set<i32> {
        crate::session::handles(self.context())
    }

    pub closed spec fn wf(&self) -> bool {
        match self.phase {
            OpenPhase::Opening => self.ctx is None && self.failure is None,
            OpenPhase::Binding => self.ctx is Some && self.failure is None,
            OpenPhase::Closing => self.failure is None ==> self.ctx is Some,
        }
    }

    /// The call asked for next.
    pub open spec fn next(&self) -> Action {
        match self.phase() {
            OpenPhase::Opening => Action::Open,
            OpenPhase::Binding => Action::Bind(Context { fd: self.context()->0 }),
            OpenPhase::Closing => if self.failure() is Some && self.context() is Some {
                Action::Close(self.context()->0)
            } else {
                Action::Finish
            },
        }
    }

    /// Opening a context for `algorithm`, before any call.
    pub fn new(algorithm: Algorithm) -> (o: Opener)
        ensures
            o.wf(),
            o.algorithm_spec() == algorithm,
            o.phase() == OpenPhase::Opening,
            o.context() is None,
            o.failure() is None,
    {
        Opener { algorithm, phase: OpenPhase::Opening, ctx: None, failure: None }
    }

    /// The algorithm that `Bind` asks for.
    pub fn algorithm(&self) -> (r: &Algorithm)
        ensures
            *r == self.algorithm_spec(),
    {
        &self.algorithm
    }

    pub fn action(&self) -> (a: Action)
        requires
            self.wf(),
        ensures
            a == self.next(),
    {
        match (self.phase, self.ctx) {
            (OpenPhase::Opening, _) => Action::Open,
            (OpenPhase::Binding, Some(fd)) => Action::Bind(Context { fd }),
            (OpenPhase::Closing, Some(fd)) if self.failure.is_some() => Action::Close(fd),
            _ => Action::Finish,
        }
    }

    /// Whether `reply` is a possible outcome of the call asked for.
    pub fn accepts(&self, reply: &Reply) -> (r: bool)
        requires
            self.wf(),
        ensures
            r == fits(self.next(), *reply, self.live()),
    {
        match (self.action(), reply) {
            (Action::Open, Reply::Handle(h)) => *h >= 0,
            (Action::Open, Reply::Failed(_)) => true,
            (Action::Bind(_), Reply::Done) => true,
            (Action::Bind(_), Reply::Failed(_)) => true,
            (Action::Close(_), Reply::Done) => true,
            _ => false,
        }
    }

    /// Takes the runner's report of the call asked for.
    pub fn step(&mut self, reply: Reply)
        requires
            old(self).wf(),
            fits(old(self).next(), reply, old(self).live()),
        ensures
            final(self).wf(),
            final(self).algorithm_spec() == old(self).algorithm_spec(),
            old(self).phase() == OpenPhase::Opening && reply is Handle ==> final(self).phase()
                == OpenPhase::Binding && final(self).context() == Some(reply->Handle_0)
                && final(self).failure() is None,
            old(self).phase() == OpenPhase::Binding && reply is Done ==> final(self).phase()
                == OpenPhase::Closing && final(self).context() == old(self).context()
                && final(self).failure() is None,
            reply is Failed ==> final(self).phase() == OpenPhase::Closing
                && final(self).context() == old(self).context()
                && final(self).failure() == Some(Error::Os(reply->Failed_0)),
            old(self).next() is Close ==> final(self).context() is None
                && final(self).failure() == old(self).failure()
                && final(self).phase() == OpenPhase::Closing,
    {
        match self.phase {
            OpenPhase::Opening => match reply {
                Reply::Handle(h) => {
                    self.ctx = Some(h);
                    self.phase = OpenPhase::Binding;
                },
                Reply::Failed(e) => {
                    self.failure = Some(Error::Os(e));
                    self.phase = OpenPhase::Closing;
                },
                _ => {},
            },
            OpenPhase::Binding => match reply {
                Reply::Failed(e) => {
                    self.failure = Some(Error::Os(e));
                    self.phase = OpenPhase::Closing;
                },
                _ => self.phase = OpenPhase::Closing,
            },
            OpenPhase::Closing => self.ctx = None,
        }
    }

    /// The bound context, now the caller's to start and to close, or the
    /// error that stopped the opening, with nothing left open.
    pub fn into_context(self) -> (r: Result<Context, Error>)
        requires
            self.wf(),
            self.next() is Finish,
        ensures
            match r {
                Ok(c) => self.failure() is None && self.context() == Some(c.fd),
                Err(e) => self.failure() == Some(e) && self.live() == Set::<i32>::empty(),
            },
    {
        match self.failure {
            Some(e) => Err(e),
            None => Ok(Context { fd: self.ctx.unwrap() }),
        }
    }
}

/// An opening that ends in an error holds nothing open; one that succeeds
/// holds exactly the bound context.
pub proof fn lemma_open_releases(o: Opener)
    requires
        o.wf(),
        o.next() is Finish,
    ensures
        o.failure() is Some ==> o.live() == Set::<i32>::empty(),
        o.failure() is None ==> o.context() is Some && o.live() == set![o.context()->0],
{
}

impl Context {
    /// The call that starts an operation on this context. A context may be
    /// started any number of times; a start takes nothing from it.
    pub fn start(&self) -> (a: Action)
        ensures
            a == Action::Accept(*self),
    {
        Action::Accept(*self)
    }

    /// What a start came to, given what the accept returned: a fresh
    /// operation with a handle of its own, or the OS error, with no new
    /// handle. Either way this context is left as it was, still held and
    /// ready for another start.
    pub fn started(&self, reply: Reply) -> (r: Result<Operation, Error>)
        requires
            fits(Action::Accept(*self), reply, set![self.fd]),
        ensures
            match r {
                Ok(op) => reply == Reply::Handle(op.fd) && op.fd >= 0 && op.fd != self.fd,
                Err(e) => reply is Failed && e == Error::Os(reply->Failed_0),
            },
    {
        match reply {
            Reply::Handle(h) => Ok(Operation { fd: h }),
            Reply::Failed(e) => Err(Error::Os(e)),
            _ => Err(Error::Os(0)),
        }
    }

    /// The call that installs the caller's key on this context, before any
    /// start that should use it.
    pub fn set_key(&self) -> (a: Action)
        ensures
            a == Action::SetKey(*self),
    {
        Action::SetKey(*self)
    }

    /// What a key install came to. A refused key leaves this context as it
    /// was: bound, held, with no key, and ready to start.
    pub fn key_set(&self, reply: Reply) -> (r: Result<(), Error>)
        requires
            fits(Action::SetKey(*self), reply, Set::empty()),
        ensures
            match r {
                Ok(()) => reply is Done,
                Err(e) => reply is Failed && e == Error::Os(reply->Failed_0),
            },
    {
        match reply {
            Reply::Failed(e) => Err(Error::Os(e)),
            _ => Ok(()),
        }
    }

    /// The call that releases this context, once the caller is done starting
    /// operations on it.
    pub fn close(self) -> (a: Action)
        ensures
            a == Action::Close(self.fd),
    {
        Action::Close(self.fd)
    }
}

impl Operation {
    /// A read of exactly `n` bytes of output from this operation.
    pub fn read_exact(&self, n: usize) -> (d: Draw)
        ensures
            d.wf(),
            d.operation_spec() == *self,
            d.want() == n,
            d.got() == Seq::<u8>::empty(),
            d.failure() is None,
    {
        Draw::new(*self, n)
    }

    /// The call that releases this operation; the context it came from stays
    /// held, as their handles differ.
    pub fn close(self) -> (a: Action)
        ensures
            a == Action::Close(self.fd),
    {
        Action::Close(self.fd)
    }
}

} // verus!
