use kcapi::{pad_salg, sha224, sha256, sha384, sha512, Action, Algorithm, Error, Reply, Session};
use kcapi::{NAME_LEN, TYPE_LEN};
use sha2::Digest;

/// An in-process stand-in for the kernel: it hands out handle numbers,
/// takes at most `chunk` bytes per send, returns at most `chunk` bytes per
/// receive, and computes digests with the `sha2` crate.
struct FakeKernel {
    chunk: usize,
    next_fd: i32,
    open: Vec<i32>,
    closed: Vec<i32>,
    fail_on: Option<(&'static str, i32)>,
    short_send: bool,
    eof: bool,
    received: Vec<u8>,
    digest: Option<Vec<u8>>,
    read_pos: usize,
    bound_name: Vec<u8>,
}

impl FakeKernel {
    fn new(chunk: usize) -> FakeKernel {
        FakeKernel {
            chunk,
            next_fd: 3,
            open: Vec::new(),
            closed: Vec::new(),
            fail_on: None,
            short_send: false,
            eof: false,
            received: Vec::new(),
            digest: None,
            read_pos: 0,
            bound_name: Vec::new(),
        }
    }

    fn failing(chunk: usize, call: &'static str, code: i32) -> FakeKernel {
        let mut k = FakeKernel::new(chunk);
        k.fail_on = Some((call, code));
        k
    }

    fn fails(&self, call: &str) -> Option<i32> {
        match self.fail_on {
            Some((c, code)) if c == call => Some(code),
            _ => None,
        }
    }

    fn fresh(&mut self) -> Reply {
        let fd = self.next_fd;
        self.next_fd += 1;
        self.open.push(fd);
        Reply::Handle(fd)
    }

    fn compute(&self) -> Vec<u8> {
        let name: Vec<u8> = self.bound_name.iter().copied().take_while(|b| *b != 0).collect();
        match name.as_slice() {
            b"sha224" => sha2::Sha224::digest(&self.received).to_vec(),
            b"sha256" => sha2::Sha256::digest(&self.received).to_vec(),
            b"sha384" => sha2::Sha384::digest(&self.received).to_vec(),
            b"sha512" => sha2::Sha512::digest(&self.received).to_vec(),
            _ => (0..255u8).cycle().take(1 << 12).collect(),
        }
    }

    fn perform(&mut self, s: &Session, a: Action) -> Reply {
        match a {
            Action::Open => match self.fails("open") {
                Some(code) => Reply::Failed(code),
                None => self.fresh(),
            },
            Action::Bind(_) => match self.fails("bind") {
                Some(code) => Reply::Failed(code),
                None => {
                    self.bound_name = s.algorithm().salg_name.to_vec();
                    Reply::Done
                }
            },
            Action::SetKey(_) => match self.fails("setkey") {
                Some(code) => Reply::Failed(code),
                None => Reply::Done,
            },
            Action::Accept(_) => match self.fails("accept") {
                Some(code) => Reply::Failed(code),
                None => self.fresh(),
            },
            Action::Send { from, len, .. } => match self.fails("send") {
                Some(code) => Reply::Failed(code),
                None if self.short_send => Reply::Count(0),
                None => {
                    let k = len.min(self.chunk);
                    self.received.extend_from_slice(&s.input()[from..from + k]);
                    Reply::Count(k)
                }
            },
            Action::Recv { len, .. } => match self.fails("recv") {
                Some(code) => Reply::Failed(code),
                None if self.eof => Reply::Data(Vec::new()),
                None => {
                    if self.digest.is_none() {
                        self.digest = Some(self.compute());
                    }
                    let d = self.digest.as_ref().unwrap();
                    let k = len.min(self.chunk).min(d.len() - self.read_pos);
                    let out = d[self.read_pos..self.read_pos + k].to_vec();
                    self.read_pos += k;
                    Reply::Data(out)
                }
            },
            Action::Close(fd) => {
                assert!(self.open.contains(&fd), "closing a handle that is not open");
                self.open.retain(|h| *h != fd);
                self.closed.push(fd);
                Reply::Done
            }
            Action::Finish => panic!("nothing to perform"),
        }
    }

    fn run(&mut self, mut s: Session) -> Session {
        loop {
            let a = s.action();
            if a == Action::Finish {
                return s;
            }
            let r = self.perform(&s, a);
            assert!(s.accepts(&r));
            s.step(r);
        }
    }

    fn digest(&mut self, s: Session) -> Result<Vec<u8>, Error> {
        self.run(s).into_result()
    }
}

const HELLO: &[u8] = b"Hello, world!";

fn hex(b: &[u8]) -> String {
    b.iter().map(|x| format!("{:02x}", x)).collect()
}

#[test]
fn compare_sha224() {
    let mut k = FakeKernel::new(5);
    let d = k.digest(sha224(HELLO)).unwrap();
    assert_eq!(d.len(), 28);
    assert_eq!(d.as_slice(), sha2::Sha224::digest(HELLO).as_slice());
}

#[test]
fn compare_sha256() {
    let mut k = FakeKernel::new(5);
    let d = k.digest(sha256(HELLO)).unwrap();
    assert_eq!(d.len(), 32);
    assert_eq!(d.as_slice(), sha2::Sha256::digest(HELLO).as_slice());
}

#[test]
fn compare_sha384() {
    let mut k = FakeKernel::new(5);
    let d = k.digest(sha384(HELLO)).unwrap();
    assert_eq!(d.len(), 48);
    assert_eq!(d.as_slice(), sha2::Sha384::digest(HELLO).as_slice());
}

#[test]
fn compare_sha512() {
    let mut k = FakeKernel::new(5);
    let d = k.digest(sha512(HELLO)).unwrap();
    assert_eq!(d.len(), 64);
    assert_eq!(d.as_slice(), sha2::Sha512::digest(HELLO).as_slice());
}

#[test]
fn sha256_of_hello_world_is_the_known_digest() {
    let mut k = FakeKernel::new(1 << 20);
    let d = k.digest(sha256(HELLO)).unwrap();
    assert_eq!(hex(&d), "315f5bdb76d078c43b8ac0064e4a0164612b1fce77c869345bfc94c75894edd3");
}

#[test]
fn one_byte_chunks_give_the_same_digest() {
    let data: Vec<u8> = (0..1000u32).map(|i| (i * 7 % 256) as u8).collect();
    let mut small = FakeKernel::new(1);
    let mut large = FakeKernel::new(1 << 20);
    let a = small.digest(sha512(&data)).unwrap();
    let b = large.digest(sha512(&data)).unwrap();
    assert_eq!(a, b);
    assert_eq!(small.received, data);
    assert_eq!(a.as_slice(), sha2::Sha512::digest(&data).as_slice());
}

#[test]
fn empty_input_sends_nothing() {
    let mut k = FakeKernel::new(3);
    let d = k.digest(sha256(b"")).unwrap();
    assert!(k.received.is_empty());
    assert_eq!(d.as_slice(), sha2::Sha256::digest(b"").as_slice());
}

#[test]
fn two_runs_give_identical_digests() {
    let mut k1 = FakeKernel::new(4);
    let mut k2 = FakeKernel::new(9);
    assert_eq!(k1.digest(sha384(HELLO)).unwrap(), k2.digest(sha384(HELLO)).unwrap());
}

#[test]
fn every_handle_is_closed_once() {
    let mut k = FakeKernel::new(2);
    k.digest(sha224(HELLO)).unwrap();
    assert!(k.open.is_empty());
    assert_eq!(k.closed, vec![4, 3]);
}

#[test]
fn thousands_of_sessions_leave_nothing_open() {
    let mut k = FakeKernel::new(64);
    for _ in 0..5000 {
        k.received.clear();
        k.digest = None;
        k.read_pos = 0;
        k.digest(sha256(HELLO)).unwrap();
        assert!(k.open.is_empty());
    }
    assert_eq!(k.closed.len(), 10000);
}

#[test]
fn open_failure_is_reported() {
    let mut k = FakeKernel::failing(8, "open", 97);
    assert_eq!(k.digest(sha256(HELLO)), Err(Error::Os(97)));
    assert!(k.closed.is_empty());
}

#[test]
fn bind_failure_is_reported_and_context_closed() {
    let mut k = FakeKernel::failing(8, "bind", 2);
    assert_eq!(k.digest(sha256(HELLO)), Err(Error::Os(2)));
    assert!(k.open.is_empty());
    assert_eq!(k.closed, vec![3]);
}

#[test]
fn unknown_algorithm_fails_rather_than_returning_zeros() {
    let mut k = FakeKernel::failing(8, "bind", 2);
    let s = Session::new(Algorithm::new(b"hash", b"no_such_hash"), None, HELLO.to_vec(), 32, false);
    assert_eq!(k.digest(s), Err(Error::Os(2)));
    assert!(k.open.is_empty());
}

#[test]
fn accept_failure_is_reported() {
    let mut k = FakeKernel::failing(8, "accept", 24);
    assert_eq!(k.digest(sha512(HELLO)), Err(Error::Os(24)));
    assert!(k.open.is_empty());
}

#[test]
fn send_failure_closes_both_handles() {
    let mut k = FakeKernel::failing(8, "send", 32);
    assert_eq!(k.digest(sha256(HELLO)), Err(Error::Os(32)));
    assert!(k.open.is_empty());
    assert_eq!(k.closed, vec![4, 3]);
}

#[test]
fn recv_failure_is_reported() {
    let mut k = FakeKernel::failing(8, "recv", 5);
    assert_eq!(k.digest(sha256(HELLO)), Err(Error::Os(5)));
    assert!(k.open.is_empty());
}

#[test]
fn send_that_takes_nothing_is_write_zero() {
    let mut k = FakeKernel::new(8);
    k.short_send = true;
    assert_eq!(k.digest(sha256(HELLO)), Err(Error::WriteZero));
    assert!(k.open.is_empty());
}

#[test]
fn stream_end_before_digest_is_unexpected_eof() {
    let mut k = FakeKernel::new(8);
    k.eof = true;
    assert_eq!(k.digest(sha256(HELLO)), Err(Error::UnexpectedEof));
    assert!(k.open.is_empty());
}

#[test]
fn replies_that_do_not_fit_are_refused() {
    let s = sha256(HELLO);
    assert_eq!(s.action(), Action::Open);
    assert!(!s.accepts(&Reply::Done));
    assert!(!s.accepts(&Reply::Handle(-1)));
    assert!(s.accepts(&Reply::Handle(3)));
    assert!(s.accepts(&Reply::Failed(1)));
}

#[test]
fn session_names_the_hash_transform() {
    let s = sha384(HELLO);
    assert_eq!(&s.algorithm().salg_type[..5], b"hash\0");
    assert_eq!(&s.algorithm().salg_name[..7], b"sha384\0");
    assert_eq!(s.key(), None);
    assert_eq!(s.input(), HELLO);
}

#[test]
fn pad_salg_zero_fills() {
    let a: [u8; 8] = pad_salg(b"abc");
    assert_eq!(a, [b'a', b'b', b'c', 0, 0, 0, 0, 0]);
}

#[test]
fn pad_salg_cuts_long_text() {
    let a: [u8; 4] = pad_salg(b"abcdef");
    assert_eq!(a, *b"abcd");
    let e: [u8; 3] = pad_salg(b"");
    assert_eq!(e, [0, 0, 0]);
}

#[test]
fn algorithm_fields_have_kernel_sizes() {
    let long = [b'x'; 100];
    let a = Algorithm::new(b"skcipher", &long);
    assert_eq!(a.salg_type.len(), TYPE_LEN);
    assert_eq!(a.salg_name.len(), NAME_LEN);
    assert_eq!(&a.salg_type[..9], b"skcipher\0");
    assert!(a.salg_name.iter().all(|b| *b == b'x'));
}
